//! Points, rectangles and padding in whole logical pixels.
use vstd::prelude::*;

verus! {

/// A point on the screen.
#[derive(Clone, Copy, Debug, PartialEq, Eq, Structural)]
pub struct Point {
    pub x: i32,
    pub y: i32,
}

/// An axis-aligned rectangle: its top-left corner and its size.
#[derive(Clone, Copy, Debug, PartialEq, Eq, Structural)]
pub struct Rectangle {
    pub x: i32,
    pub y: i32,
    pub width: i32,
    pub height: i32,
}

/// Space around the content of a box, on each of its four sides.
#[derive(Clone, Copy, Debug, PartialEq, Eq, Structural)]
pub struct Padding {
    pub top: u16,
    pub right: u16,
    pub bottom: u16,
    pub left: u16,
}

impl Point {
    pub fn new(x: i32, y: i32) -> (r: Point)
        ensures
            r == (Point { x, y }),
    {
        Point { x, y }
    }
}

impl Rectangle {
    /// Whether `p` lies in the rectangle, its edges included.
    pub open spec fn contains_spec(self, p: Point) -> bool {
        &&& self.x <= p.x <= self.x + self.width
        &&& self.y <= p.y <= self.y + self.height
    }

    /// Whether `p` lies in the rectangle, its edges included.
    pub fn contains(&self, p: Point) -> (r: bool)
        ensures
            r == self.contains_spec(p),
    {
        let x = self.x as i64;
        let y = self.y as i64;
        x <= p.x as i64 && p.x as i64 <= x + self.width as i64 && y <= p.y as i64 && p.y as i64
            <= y + self.height as i64
    }
}

impl Padding {
    /// No padding.
    pub fn zero() -> (r: Padding)
        ensures
            r == (Padding { top: 0, right: 0, bottom: 0, left: 0 }),
    {
        Padding { top: 0, right: 0, bottom: 0, left: 0 }
    }

    /// The same padding on all four sides.
    pub fn uniform(p: u16) -> (r: Padding)
        ensures
            r == (Padding { top: p, right: p, bottom: p, left: p }),
    {
        Padding { top: p, right: p, bottom: p, left: p }
    }

    /// The padding on the left and the right together.
    pub fn horizontal(&self) -> (r: u32)
        ensures
            r == self.left + self.right,
    {
        self.left as u32 + self.right as u32
    }
}

} // verus!
