//! Client library for the Maptiler Cloud tile API.
//!
//! The library checks a tile request against the bounds of its tileset and
//! builds the address that fetches it. Sending the request is left to the
//! caller's HTTP client.
pub mod errors;
pub mod request;
pub mod session;
pub mod text;
pub mod tileset;

pub use request::TileRequest;
pub use session::{ConstructedRequest, Maptiler, RequestType};
pub use tileset::TileSet;
