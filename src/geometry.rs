use vstd::prelude::*;

verus! {

/// Millipixels in one pixel.
pub const UNIT: i64 = 1000;

/// Width of the playing field, in millipixels.
pub const SCREEN_WIDTH: i64 = 800_000;

/// Height of the playing field, in millipixels.
pub const SCREEN_HEIGHT: i64 = 480_000;

/// A point of the playing field, in millipixels; the top-left corner is the origin
/// and y grows downwards.
#[derive(Clone, Copy, Debug, PartialEq, Eq, Structural)]
pub struct Point {
    pub x: i64,
    pub y: i64,
}

/// A velocity, in pixels per second along each axis.
#[derive(Clone, Copy, Debug, PartialEq, Eq, Structural)]
pub struct Velocity {
    pub x: i64,
    pub y: i64,
}

/// An axis-aligned rectangle, anchored at its top-left corner.
#[derive(Clone, Copy, Debug, PartialEq, Eq, Structural)]
pub struct Rect {
    pub x: i64,
    pub y: i64,
    pub w: i64,
    pub h: i64,
}

/// Whether two rectangles share any point, edges included.
pub open spec fn rects_overlap(a: Rect, b: Rect) -> bool {
    &&& a.x as int <= b.x + b.w
    &&& b.x as int <= a.x + a.w
    &&& a.y as int <= b.y + b.h
    &&& b.y as int <= a.y + a.h
}

impl Point {
    pub fn new(x: i64, y: i64) -> (r: Point)
        ensures
            r == (Point { x, y }),
    {
        Point { x, y }
    }
}

impl Rect {
    pub fn new(x: i64, y: i64, w: i64, h: i64) -> (r: Rect)
        ensures
            r == (Rect { x, y, w, h }),
    {
        Rect { x, y, w, h }
    }

    /// Whether the two rectangles share any point, edges included.
    pub fn overlaps(&self, other: &Rect) -> (r: bool)
        ensures
            r == rects_overlap(*self, *other),
    {
        let a_right = self.x as i128 + self.w as i128;
        let b_right = other.x as i128 + other.w as i128;
        let a_bottom = self.y as i128 + self.h as i128;
        let b_bottom = other.y as i128 + other.h as i128;
        self.x as i128 <= b_right && other.x as i128 <= a_right && self.y as i128 <= b_bottom
            && other.y as i128 <= a_bottom
    }
}

} // verus!
