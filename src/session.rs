//! The API session, which holds the key, and the requests that it builds.
use vstd::prelude::*;

use vstd::std_specs::convert::IntoSpec;

use crate::request::TileRequest;
use crate::text::{decimal, push_decimal};
use crate::tileset::TileSet;

verus! {

/// The kinds of request to the Maptiler Cloud API.
#[derive(Debug, Copy, Clone)]
pub enum RequestType {
    TileRequest(TileRequest),
}

impl From<TileRequest> for RequestType {
    fn from(tile_request: TileRequest) -> (r: RequestType)
        ensures
            r == RequestType::TileRequest(tile_request),
    {
        RequestType::TileRequest(tile_request)
    }
}

impl vstd::std_specs::convert::FromSpecImpl<TileRequest> for RequestType {
    open spec fn obeys_from_spec() -> bool {
        true
    }

    open spec fn from_spec(v: TileRequest) -> RequestType {
        RequestType::TileRequest(v)
    }
}

/// The address of a tile: the tileset's endpoint, the zoom level, x and y,
/// the tileset's file extension, and the API key.
pub open spec fn tile_url(
    endpoint: Seq<char>,
    zoom: nat,
    x: nat,
    y: nat,
    extension: Seq<char>,
    api_key: Seq<char>,
) -> Seq<char> {
    "https://api.maptiler.com/tiles/"@ + endpoint + "/"@ + decimal(zoom) + "/"@ + decimal(x) + "/"@
        + decimal(y) + "."@ + extension + "?key="@ + api_key
}

/// The address that a request of this kind, made with this key, fetches.
pub open spec fn request_url(api_key: Seq<char>, inner: RequestType) -> Seq<char> {
    match inner {
        RequestType::TileRequest(t) => tile_url(
            t@.set.spec_endpoint(),
            t@.zoom as nat,
            t@.x as nat,
            t@.y as nat,
            t@.set.spec_file_extension(),
            api_key,
        ),
    }
}

/// The HTTP status with which the service hands out a tile.
pub const STATUS_OK: u16 = 200;

/// Whether a response with this HTTP status carries the requested tile in
/// its body; any other status is an error, and its body is dropped.
pub fn is_tile_status(status: u16) -> (r: bool)
    ensures
        r == (status == STATUS_OK),
{
    status == STATUS_OK
}

/// The parts of a constructed request.
pub ghost struct ConstructedRequestView {
    pub api_key: Seq<char>,
    pub inner: RequestType,
}

/// A request made by a session, ready to be sent.
#[derive(Debug, Clone)]
pub struct ConstructedRequest {
    api_key: String,
    inner: RequestType,
}

impl View for ConstructedRequest {
    type V = ConstructedRequestView;

    closed spec fn view(&self) -> ConstructedRequestView {
        ConstructedRequestView { api_key: self.api_key@, inner: self.inner }
    }
}

impl ConstructedRequest {
    /// Returns the kind of this request, with its arguments.
    pub fn request_type(&self) -> (r: RequestType)
        ensures
            r == self@.inner,
    {
        self.inner
    }

    /// Returns the address that this request fetches with an HTTP GET.
    pub fn url(&self) -> (r: String)
        ensures
            r@ == request_url(self@.api_key, self@.inner),
            match self@.inner {
                RequestType::TileRequest(t) => t.wf(),
            },
    {
        match self.inner {
            RequestType::TileRequest(tile_request) => self.tile_url(&tile_request),
        }
    }

    fn tile_url(&self, tile_request: &TileRequest) -> (r: String)
        ensures
            r@ == request_url(self@.api_key, RequestType::TileRequest(*tile_request)),
            tile_request.wf(),
    {
        let tileset: TileSet = tile_request.tileset();
        let mut url = String::from_str("https://api.maptiler.com/tiles/");
        url.append(tileset.endpoint());
        url.append("/");
        push_decimal(&mut url, tile_request.zoom());
        url.append("/");
        push_decimal(&mut url, tile_request.x());
        url.append("/");
        push_decimal(&mut url, tile_request.y());
        url.append(".");
        url.append(tileset.file_extension());
        url.append("?key=");
        url.append(self.api_key.as_str());
        url
    }
}

/// A Maptiler Cloud session: it holds the API key and makes requests.
pub struct Maptiler {
    api_key: String,
}

impl View for Maptiler {
    type V = Seq<char>;

    closed spec fn view(&self) -> Seq<char> {
        self.api_key@
    }
}

impl Maptiler {
    /// Opens a session with the given API key.
    pub fn new<S>(api_key: S) -> (r: Self)
        where
            S: Into<String>,
        ensures
            S::obeys_into_spec() ==> r@ == api_key.into_spec()@,
    {
        Self { api_key: api_key.into() }
    }

    /// Opens a session with the API key given as text.
    pub fn from_key(api_key: &str) -> (r: Self)
        ensures
            r@ == api_key@,
    {
        Self { api_key: String::from_str(api_key) }
    }

    /// Makes a request of any kind that converts into a `RequestType`.
    pub fn create_request<R>(&self, request: R) -> (r: ConstructedRequest)
        where
            R: Into<RequestType>,
        ensures
            r@.api_key == self@,
            R::obeys_into_spec() ==> r@.inner == request.into_spec(),
    {
        ConstructedRequest { api_key: self.api_key.clone(), inner: request.into() }
    }

    /// Makes a tile request.
    pub fn create_tile_request(&self, tile_request: TileRequest) -> (r: ConstructedRequest)
        ensures
            r@ == (ConstructedRequestView {
                api_key: self@,
                inner: RequestType::TileRequest(tile_request),
            }),
    {
        ConstructedRequest {
            api_key: self.api_key.clone(),
            inner: RequestType::TileRequest(tile_request),
        }
    }
}

} // verus!
