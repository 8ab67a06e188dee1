use vstd::prelude::*;

verus! {

// The editor works in the coordinates GTK hands it, which are floating point. The
// coordinate type is therefore a parameter here: the library moves coordinates from one
// shape to another, and the computations on them are handed in by the caller.

/// A point on the screen.
#[derive(Clone, Copy, Debug, PartialEq)]
pub struct Point<C> {
    pub x: C,
    pub y: C,
}

/// A rectangle whose top-left corner is at `(x, y)`. Its width and height may be negative
/// while the user is still dragging it out.
#[derive(Clone, Copy, Debug, PartialEq)]
pub struct Rectangle<C> {
    pub x: C,
    pub y: C,
    pub w: C,
    pub h: C,
}

/// An ellipse with a radius of w/2 on the x axis and h/2 on the y axis, centred at
/// (x + w/2, y + h/2).
#[derive(Clone, Copy, Debug, PartialEq)]
pub struct Ellipse<C> {
    pub x: C,
    pub y: C,
    pub w: C,
    pub h: C,
}

/// A rectangle in whole pixels, as the X server describes monitors and windows.
#[derive(Clone, Copy, Debug, PartialEq, Eq, Structural)]
pub struct PixelRect {
    pub x: i64,
    pub y: i64,
    pub w: i64,
    pub h: i64,
}

/// The half-open containment test the editor uses: `x <= px < x + w` and likewise for y.
pub open spec fn pixel_rect_contains(rect: PixelRect, px: int, py: int) -> bool {
    rect.x <= px < rect.x + rect.w && rect.y <= py < rect.y + rect.h
}

impl PixelRect {
    /// Whether the point `(px, py)` lies in the rectangle.
    pub fn contains(&self, px: i64, py: i64) -> (inside: bool)
        requires
            -0x1_0000_0000 <= self.x <= 0x1_0000_0000,
            -0x1_0000_0000 <= self.y <= 0x1_0000_0000,
            -0x1_0000_0000 <= self.w <= 0x1_0000_0000,
            -0x1_0000_0000 <= self.h <= 0x1_0000_0000,
        ensures
            inside == pixel_rect_contains(*self, px as int, py as int),
    {
        self.x <= px && px < self.x + self.w && self.y <= py && py < self.y + self.h
    }
}

} // verus!
