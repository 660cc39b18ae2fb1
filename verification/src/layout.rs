//! Layout geometry for rendering, as plain data. The engine only ever needs
//! "split the surface into two equal horizontal halves"; the terminal
//! backend draws into the computed regions.

use vstd::prelude::*;

verus! {

/// A rectangular region of the terminal surface.
#[derive(Clone, Copy, PartialEq, Eq, Structural, Debug)]
pub struct Rect {
    pub x: u16,
    pub y: u16,
    pub width: u16,
    pub height: u16,
}

/// The left half of `area` after an equal horizontal split.
pub open spec fn spec_left_half(area: Rect) -> Rect {
    Rect { x: area.x, y: area.y, width: (area.width / 2) as u16, height: area.height }
}

/// The right half of `area`: everything the left half leaves, so the two
/// halves tile `area` exactly even for odd widths.
pub open spec fn spec_right_half(area: Rect) -> Rect {
    Rect {
        x: (area.x + area.width / 2) as u16,
        y: area.y,
        width: (area.width - area.width / 2) as u16,
        height: area.height,
    }
}

/// Splits `area` into two equal horizontal halves.
pub fn split_horizontal(area: Rect) -> (r: (Rect, Rect))
    requires
        area.x + area.width <= u16::MAX,
    ensures
        r.0 == spec_left_half(area),
        r.1 == spec_right_half(area),
{
    let half = area.width / 2;
    (
        Rect { x: area.x, y: area.y, width: half, height: area.height },
        Rect { x: area.x + half, y: area.y, width: area.width - half, height: area.height },
    )
}

} // verus!
