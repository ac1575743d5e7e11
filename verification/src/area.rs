//! Rectangles of the terminal, in character cells.

use vstd::prelude::*;

verus! {

/// A rectangular part of the terminal.
#[derive(Clone, Copy, Debug, PartialEq, Eq, Structural)]
pub struct Area {
    pub left: u16,
    pub top: u16,
    pub width: u16,
    pub height: u16,
}

/// The area that a view has before it was given one.
pub open spec fn uninitialized_area() -> Area {
    Area { left: 0, top: 0, width: 5, height: 1 }
}

/// `area`, shrunk on both sides so that it is at most `max_width` wide.
///
/// The columns taken off are split evenly; an odd one is taken off the right.
pub open spec fn padded_area(area: Area, max_width: u16) -> Area {
    if max_width >= area.width {
        area
    } else {
        Area {
            left: (area.left + (area.width - max_width) / 2) as u16,
            top: area.top,
            width: max_width,
            height: area.height,
        }
    }
}

/// Whether `area` can be padded to `max_width` without its left edge
/// leaving the range of a column number.
pub open spec fn can_pad(area: Area, max_width: u16) -> bool {
    max_width < area.width ==> area.left + (area.width - max_width) / 2 <= u16::MAX
}

/// `termimad::Area::uninitialized`: the placeholder area, five columns wide
/// and one row high, at the origin.
#[verifier::external_body]
fn termimad_uninitialized() -> (area: Area)
    ensures
        area == uninitialized_area(),
{
    let a = termimad::Area::uninitialized();
    Area { left: a.left, top: a.top, width: a.width, height: a.height }
}

/// `termimad::Area::pad_for_max_width`: an area no wider than `max_width`
/// comes back as it was; a wider one loses `width - max_width` columns, half
/// of them (rounded down) on the left. The call adds to `left` without a
/// check, so the sum must fit.
#[verifier::external_body]
fn termimad_pad_for_max_width(area: Area, max_width: u16) -> (padded: Area)
    requires
        can_pad(area, max_width),
    ensures
        padded == padded_area(area, max_width),
{
    let mut a = termimad::Area::new(area.left, area.top, area.width, area.height);
    a.pad_for_max_width(max_width);
    Area { left: a.left, top: a.top, width: a.width, height: a.height }
}

impl Area {
    /// The area of the given position and size.
    pub fn new(left: u16, top: u16, width: u16, height: u16) -> (area: Area)
        ensures
            area == (Area { left, top, width, height }),
    {
        Area { left, top, width, height }
    }

    /// The area of a view that was not placed yet.
    pub fn uninitialized() -> (area: Area)
        ensures
            area == uninitialized_area(),
    {
        termimad_uninitialized()
    }

    /// Shrinks the area symmetrically where it is wider than `max_width`.
    pub fn pad_for_max_width(&mut self, max_width: u16)
        requires
            can_pad(*old(self), max_width),
        ensures
            *final(self) == padded_area(*old(self), max_width),
    {
        *self = termimad_pad_for_max_width(*self, max_width);
    }
}

} // verus!
