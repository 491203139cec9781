//! The corners of the canvas as the user names them and as the compositor
//! backend places them.

use vstd::prelude::*;
use crate::schedule::AnchorPosition;
use crate::text::str_eq;

verus! {

/// The corner that a token names: the bottom left one for any token that
/// names no other.
pub open spec fn anchor_of_token(token: Seq<char>) -> AnchorPosition {
    if token == "top-left"@ {
        AnchorPosition::TopLeft
    } else if token == "top-right"@ {
        AnchorPosition::TopRight
    } else if token == "bottom-right"@ {
        AnchorPosition::BottomRight
    } else {
        AnchorPosition::BottomLeft
    }
}

/// The place of a corner as an overlay expression: the column, a colon,
/// the row, ten pixels in from the edges.
pub open spec fn coords_of(anchor: AnchorPosition) -> Seq<char> {
    match anchor {
        AnchorPosition::TopLeft => "10:10"@,
        AnchorPosition::TopRight => "main_w-overlay_w-10:10"@,
        AnchorPosition::BottomRight => "main_w-overlay_w-10:main_h-overlay_h-10"@,
        AnchorPosition::BottomLeft => "10:main_h-overlay_h-10"@,
    }
}

/// The corner that a token names.
pub fn parse_anchor_position(token: &str) -> (anchor: AnchorPosition)
    ensures
        anchor == anchor_of_token(token@),
{
    if str_eq(token, "top-left") {
        AnchorPosition::TopLeft
    } else if str_eq(token, "top-right") {
        AnchorPosition::TopRight
    } else if str_eq(token, "bottom-right") {
        AnchorPosition::BottomRight
    } else {
        AnchorPosition::BottomLeft
    }
}

/// The place of a corner as an overlay expression.
pub fn anchor_coords(anchor: AnchorPosition) -> (coords: &'static str)
    ensures
        coords@ == coords_of(anchor),
{
    match anchor {
        AnchorPosition::TopLeft => "10:10",
        AnchorPosition::TopRight => "main_w-overlay_w-10:10",
        AnchorPosition::BottomRight => "main_w-overlay_w-10:main_h-overlay_h-10",
        AnchorPosition::BottomLeft => "10:main_h-overlay_h-10",
    }
}

/// The overlay expression for the corner that a token names.
pub fn get_position_coords(position: &str) -> (coords: String)
    ensures
        coords@ == coords_of(anchor_of_token(position@)),
{
    anchor_coords(parse_anchor_position(position)).to_owned()
}

} // verus!
