//! Errors on the arguments of a request, raised before anything is sent.
use vstd::prelude::*;

use crate::text::{decimal, push_decimal};
use crate::tileset::TileSet;

verus! {

/// An argument of a request that lies outside the bounds of its tileset or
/// zoom level.
#[derive(Debug, Clone, Copy, PartialEq, Eq)]
pub enum ArgumentError {
    /// The zoom level, the tileset, and the tileset's largest zoom level.
    ZoomTooLarge(u32, TileSet, u32),
    /// The zoom level, the tileset, and the tileset's smallest zoom level.
    ZoomTooSmall(u32, TileSet, u32),
    /// The x coordinate, the zoom level, and the largest coordinate at it.
    XTooLarge(u32, u32, u32),
    /// The y coordinate, the zoom level, and the largest coordinate at it.
    YTooLarge(u32, u32, u32),
}

/// The message that describes an argument error to people.
pub open spec fn argument_error_text(e: ArgumentError) -> Seq<char> {
    match e {
        ArgumentError::ZoomTooLarge(zoom, set, max) => "Zoom level "@ + decimal(zoom as nat)
            + " is too large for the tilset "@ + set.spec_display_name() + " (max: "@ + decimal(
            max as nat,
        ) + ")"@,
        ArgumentError::ZoomTooSmall(zoom, set, min) => "Zoom level "@ + decimal(zoom as nat)
            + " is too small for the tilset "@ + set.spec_display_name() + " (min: "@ + decimal(
            min as nat,
        ) + ")"@,
        ArgumentError::XTooLarge(x, zoom, max) => "X coordinate "@ + decimal(x as nat)
            + " is too large for the zoom level "@ + decimal(zoom as nat) + " (max X: "@ + decimal(
            max as nat,
        ) + ")"@,
        ArgumentError::YTooLarge(y, zoom, max) => "Y coordinate "@ + decimal(y as nat)
            + " is too large for the zoom level "@ + decimal(zoom as nat) + " (max Y: "@ + decimal(
            max as nat,
        ) + ")"@,
    }
}

impl ArgumentError {
    /// Returns the message that describes this error.
    pub fn message(&self) -> (r: String)
        ensures
            r@ == argument_error_text(*self),
    {
        let mut text = String::new();
        match *self {
            ArgumentError::ZoomTooLarge(zoom, set, max) => {
                text.append("Zoom level ");
                push_decimal(&mut text, zoom);
                text.append(" is too large for the tilset ");
                text.append(set.display_name());
                text.append(" (max: ");
                push_decimal(&mut text, max);
            },
            ArgumentError::ZoomTooSmall(zoom, set, min) => {
                text.append("Zoom level ");
                push_decimal(&mut text, zoom);
                text.append(" is too small for the tilset ");
                text.append(set.display_name());
                text.append(" (min: ");
                push_decimal(&mut text, min);
            },
            ArgumentError::XTooLarge(x, zoom, max) => {
                text.append("X coordinate ");
                push_decimal(&mut text, x);
                text.append(" is too large for the zoom level ");
                push_decimal(&mut text, zoom);
                text.append(" (max X: ");
                push_decimal(&mut text, max);
            },
            ArgumentError::YTooLarge(y, zoom, max) => {
                text.append("Y coordinate ");
                push_decimal(&mut text, y);
                text.append(" is too large for the zoom level ");
                push_decimal(&mut text, zoom);
                text.append(" (max Y: ");
                push_decimal(&mut text, max);
            },
        }
        text.append(")");
        assert(text@ =~= argument_error_text(*self));
        text
    }
}

} // verus!
