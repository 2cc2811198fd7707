use vstd::prelude::*;

verus! {

/// A position on the output surface, in whole pixels. It may lie outside the
/// surface while the pointer is dragged past its edge.
#[derive(Clone, Copy, Debug, PartialEq, Eq, Structural)]
pub struct ScreenPoint {
    pub x: i32,
    pub y: i32,
}

/// A screen-space rectangle given by the point where a drag started and the
/// point where it currently is (or where it ended).
#[derive(Clone, Copy, Debug, PartialEq, Eq, Structural)]
pub struct SelectionRect {
    pub top_left: ScreenPoint,
    pub bottom_right: ScreenPoint,
}

impl SelectionRect {
    /// The rectangle is strictly wider and taller than zero, with its corners
    /// in top-left / bottom-right order.
    pub open spec fn spans_area(self) -> bool {
        self.top_left.x < self.bottom_right.x && self.top_left.y < self.bottom_right.y
    }

    pub fn has_area(&self) -> (r: bool)
        ensures
            r == self.spans_area(),
    {
        self.top_left.x < self.bottom_right.x && self.top_left.y < self.bottom_right.y
    }
}

} // verus!
