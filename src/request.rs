//! Tile requests: their validation against a tileset's bounds, and the
//! address that fetches them.
use vstd::prelude::*;
use vstd::arithmetic::power2::pow2;
use vstd::bits::{lemma_u32_pow2_no_overflow, lemma_u32_shl_is_mul};

use crate::errors::ArgumentError;
use crate::tileset::TileSet;

verus! {

/// The largest x or y coordinate accepted at zoom level `zoom`: `2^zoom`,
/// or 0 at zoom level 0.
///
/// At zoom level `z` the world is a grid of `2^z` by `2^z` tiles, whose
/// largest index is `2^z - 1`; the bound here admits one more, and callers
/// rely on it as it stands.
pub open spec fn max_coordinate(zoom: nat) -> nat {
    if zoom == 0 {
        0
    } else {
        pow2(zoom)
    }
}

/// What building a request of these arguments gives: `None` where they are
/// accepted, else the first bound that they break, zoom level first.
pub open spec fn request_error(set: TileSet, x: u32, y: u32, zoom: u32) -> Option<ArgumentError> {
    if zoom > set.spec_max_zoom() {
        Some(ArgumentError::ZoomTooLarge(zoom, set, set.spec_max_zoom()))
    } else if zoom < set.spec_min_zoom() {
        Some(ArgumentError::ZoomTooSmall(zoom, set, set.spec_min_zoom()))
    } else if x > max_coordinate(zoom as nat) {
        Some(ArgumentError::XTooLarge(x, zoom, max_coordinate(zoom as nat) as u32))
    } else if y > max_coordinate(zoom as nat) {
        Some(ArgumentError::YTooLarge(y, zoom, max_coordinate(zoom as nat) as u32))
    } else {
        None
    }
}

/// The arguments of a tile request.
pub ghost struct TileRequestView {
    pub set: TileSet,
    pub zoom: u32,
    pub x: u32,
    pub y: u32,
}

/// A request for one tile, checked against the bounds of its tileset.
#[derive(Debug, PartialEq, Eq, Clone, Copy)]
pub struct TileRequest {
    set: TileSet,
    zoom: u32,
    tile_x: u32,
    tile_y: u32,
}

impl View for TileRequest {
    type V = TileRequestView;

    closed spec fn view(&self) -> TileRequestView {
        TileRequestView { set: self.set, zoom: self.zoom, x: self.tile_x, y: self.tile_y }
    }
}

impl TileRequest {
    /// The request's arguments are within the bounds of its tileset.
    pub open spec fn wf(&self) -> bool {
        request_error(self@.set, self@.x, self@.y, self@.zoom) is None
    }

    /// Every request that exists is within the bounds of its tileset.
    #[verifier::type_invariant]
    closed spec fn within_bounds(self) -> bool {
        request_error(self.set, self.tile_x, self.tile_y, self.zoom) is None
    }

    /// Creates a request for the tile at (`x`, `y`) of tileset `set` at zoom
    /// level `zoom`, in the tiled web map scheme.
    ///
    /// The zoom level must lie within the tileset's bounds, and `x` and `y`
    /// must not exceed `max_coordinate(zoom)`.
    pub fn new(set: TileSet, x: u32, y: u32, zoom: u32) -> (r: Result<Self, ArgumentError>)
        ensures
            match r {
                Ok(req) => request_error(set, x, y, zoom) is None && req@ == (TileRequestView {
                    set,
                    zoom,
                    x,
                    y,
                }),
                Err(e) => request_error(set, x, y, zoom) == Some(e),
            },
            r is Ok ==> r->Ok_0.wf(),
    {
        if zoom > set.max_zoom() {
            return Err(ArgumentError::ZoomTooLarge(zoom, set, set.max_zoom()));
        } else if zoom < set.min_zoom() {
            return Err(ArgumentError::ZoomTooSmall(zoom, set, set.min_zoom()));
        }
        proof {
            crate::tileset::lemma_zoom_range_well_formed(set);
        }
        let max_coordinate = Self::max_coordinate_with_zoom(zoom);

        if x > max_coordinate {
            return Err(ArgumentError::XTooLarge(x, zoom, max_coordinate));
        }
        if y > max_coordinate {
            return Err(ArgumentError::YTooLarge(y, zoom, max_coordinate));
        }
        Ok(Self { set, zoom, tile_x: x, tile_y: y })
    }

    /// Returns the largest x or y coordinate accepted at a zoom level:
    /// `2^zoom`, or 0 at zoom level 0.
    pub fn max_coordinate_with_zoom(zoom: u32) -> (r: u32)
        requires
            zoom < 32,
        ensures
            r == max_coordinate(zoom as nat),
    {
        if zoom == 0 {
            0
        } else {
            proof {
                lemma_u32_pow2_no_overflow(zoom as nat);
                lemma_u32_shl_is_mul(1, zoom);
            }
            1u32 << zoom
        }
    }

    /// Returns the x coordinate of this tile request.
    pub fn x(&self) -> (r: u32)
        ensures
            r == self@.x,
            self.wf(),
    {
        proof {
            use_type_invariant(self);
        }
        self.tile_x
    }

    /// Returns the y coordinate of this tile request.
    pub fn y(&self) -> (r: u32)
        ensures
            r == self@.y,
            self.wf(),
    {
        proof {
            use_type_invariant(self);
        }
        self.tile_y
    }

    /// Returns the zoom level of this tile request.
    pub fn zoom(&self) -> (r: u32)
        ensures
            r == self@.zoom,
            self.wf(),
    {
        proof {
            use_type_invariant(self);
        }
        self.zoom
    }

    /// Returns the tileset of this tile request.
    pub fn tileset(&self) -> (r: TileSet)
        ensures
            r == self@.set,
            self.wf(),
    {
        proof {
            use_type_invariant(self);
        }
        self.set
    }
}

/// A zoom level one above a tileset's largest is refused as too large, and
/// one below its smallest as too small, whatever the coordinates.
pub proof fn lemma_zoom_just_outside(set: TileSet, x: u32, y: u32)
    ensures
        request_error(set, x, y, (set.spec_max_zoom() + 1) as u32) == Some(
            ArgumentError::ZoomTooLarge(
                (set.spec_max_zoom() + 1) as u32,
                set,
                set.spec_max_zoom(),
            ),
        ),
        set.spec_min_zoom() > 0 ==> request_error(set, x, y, (set.spec_min_zoom() - 1) as u32)
            == Some(
            ArgumentError::ZoomTooSmall((set.spec_min_zoom() - 1) as u32, set, set.spec_min_zoom()),
        ),
{
    crate::tileset::lemma_zoom_range_well_formed(set);
}

/// At a zoom level that the tileset serves, a request is accepted exactly
/// when both coordinates are at most `max_coordinate(zoom)`; that bound
/// itself is accepted, and one above it is refused, for x before y.
pub proof fn lemma_coordinate_bound(set: TileSet, zoom: u32)
    requires
        set.spec_min_zoom() <= zoom <= set.spec_max_zoom(),
    ensures
        max_coordinate(zoom as nat) < u32::MAX,
        forall|x: u32, y: u32|
            #![auto]
            request_error(set, x, y, zoom) is None <==> (x <= max_coordinate(zoom as nat) && y
                <= max_coordinate(zoom as nat)),
        ({
            let m = max_coordinate(zoom as nat) as u32;
            &&& request_error(set, m, m, zoom) is None
            &&& request_error(set, (m + 1) as u32, 0, zoom) == Some(
                ArgumentError::XTooLarge((m + 1) as u32, zoom, m),
            )
            &&& request_error(set, 0, (m + 1) as u32, zoom) == Some(
                ArgumentError::YTooLarge((m + 1) as u32, zoom, m),
            )
            &&& request_error(set, m, (m + 1) as u32, zoom) == Some(
                ArgumentError::YTooLarge((m + 1) as u32, zoom, m),
            )
        }),
{
    crate::tileset::lemma_zoom_range_well_formed(set);
    if zoom > 0 {
        lemma_u32_pow2_no_overflow(zoom as nat);
    }
}

} // verus!
