//! Pixel-space rectangles and surface sizes.

use vstd::prelude::*;

verus! {

/// An axis-aligned rectangle in pixel coordinates, min corner inclusive,
/// max corner exclusive.
#[derive(Clone, Copy, Debug, PartialEq, Eq, Structural)]
pub struct Rect {
    pub min_x: u32,
    pub min_y: u32,
    pub max_x: u32,
    pub max_y: u32,
}

impl Rect {
    /// A rectangle is well formed when its min corner is not past its max.
    pub open spec fn wf(self) -> bool {
        self.min_x <= self.max_x && self.min_y <= self.max_y
    }

    pub open spec fn spec_width(self) -> int {
        self.max_x - self.min_x
    }

    pub open spec fn spec_height(self) -> int {
        self.max_y - self.min_y
    }

    /// The rectangle spanning the two corners, whichever way round they come.
    pub fn from_corners(x0: u32, y0: u32, x1: u32, y1: u32) -> (r: Rect)
        ensures
            r.wf(),
            r.min_x == if x0 <= x1 { x0 } else { x1 },
            r.max_x == if x0 <= x1 { x1 } else { x0 },
            r.min_y == if y0 <= y1 { y0 } else { y1 },
            r.max_y == if y0 <= y1 { y1 } else { y0 },
    {
        Rect {
            min_x: if x0 <= x1 { x0 } else { x1 },
            max_x: if x0 <= x1 { x1 } else { x0 },
            min_y: if y0 <= y1 { y0 } else { y1 },
            max_y: if y0 <= y1 { y1 } else { y0 },
        }
    }

    /// The full rectangle of an image of the given dimensions, anchored at
    /// the origin.
    pub fn of_image(width: u32, height: u32) -> (r: Rect)
        ensures
            r == (Rect { min_x: 0, min_y: 0, max_x: width, max_y: height }),
            r.wf(),
    {
        Rect { min_x: 0, min_y: 0, max_x: width, max_y: height }
    }

    pub fn width(&self) -> (w: u32)
        requires
            self.wf(),
        ensures
            w == self.spec_width(),
    {
        self.max_x - self.min_x
    }

    pub fn height(&self) -> (h: u32)
        requires
            self.wf(),
        ensures
            h == self.spec_height(),
    {
        self.max_y - self.min_y
    }
}

/// The on-screen pixel dimensions of a UI element, as the layout system
/// last computed them.
#[derive(Clone, Copy, Debug, PartialEq, Eq, Structural)]
pub struct SurfaceSize {
    pub width: u32,
    pub height: u32,
}

impl SurfaceSize {
    pub fn new(width: u32, height: u32) -> (s: SurfaceSize)
        ensures
            s == (SurfaceSize { width, height }),
    {
        SurfaceSize { width, height }
    }
}

} // verus!
