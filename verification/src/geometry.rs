//! Integer points, sizes and rectangles on the glyph grid.
//!
//! The grid's `y` axis points up: a rectangle's `y` is its bottom row and
//! `top()` is one past its highest row.
use vstd::prelude::*;

verus! {

/// A pixel position on the glyph grid.
#[derive(Debug, Clone, Copy, Default, Hash, PartialEq, Eq, Structural)]
pub struct Point {
    pub x: i32,
    pub y: i32,
}

impl Point {
    pub fn new(x: i32, y: i32) -> (p: Self)
        ensures
            p.x == x,
            p.y == y,
    {
        Self { x, y }
    }
}

/// A width and height in pixels.
#[derive(Debug, Clone, Copy, Default, Hash, PartialEq, Eq, Structural)]
pub struct Size {
    pub width: u32,
    pub height: u32,
}

impl Size {
    /// The empty size.
    pub fn zero() -> (s: Self)
        ensures
            s.width == 0,
            s.height == 0,
    {
        Size { width: 0, height: 0 }
    }

    pub fn new(width: u32, height: u32) -> (s: Self)
        ensures
            s.width == width,
            s.height == height,
    {
        Self { width, height }
    }
}

/// An axis-aligned rectangle: bottom-left corner plus size.
#[derive(Debug, Clone, Copy, Default, Hash)]
pub struct Rect {
    pub x: i32,
    pub y: i32,
    pub width: u32,
    pub height: u32,
}

/// The value of `w as i32`: two's-complement reinterpretation of a `u32`.
pub open spec fn u32_as_i32(w: u32) -> int {
    if w <= i32::MAX { w as int } else { w - 0x1_0000_0000 }
}

/// The `i32` that a `u32` reinterprets to, computed without a truncating cast.
fn reinterpret_u32(w: u32) -> (r: i32)
    ensures
        r == u32_as_i32(w),
{
    if w <= 0x7fff_ffff {
        w as i32
    } else {
        let shifted: i64 = (w as i64) - 0x1_0000_0000i64;
        shifted as i32
    }
}

impl Rect {
    /// The empty rectangle at the origin.
    pub fn zero() -> (r: Self)
        ensures
            r.x == 0,
            r.y == 0,
            r.width == 0,
            r.height == 0,
    {
        Rect { x: 0, y: 0, width: 0, height: 0 }
    }

    pub fn new(x: i32, y: i32, width: u32, height: u32) -> (r: Self)
        ensures
            r.x == x,
            r.y == y,
            r.width == width,
            r.height == height,
    {
        Self { x, y, width, height }
    }

    pub fn with(p: Point, s: Size) -> (r: Self)
        ensures
            r.x == p.x,
            r.y == p.y,
            r.width == s.width,
            r.height == s.height,
    {
        Self::new(p.x, p.y, s.width, s.height)
    }

    /// The rectangle spanned by two corners, in any order.
    pub fn with_points(p0: Point, p1: Point) -> (r: Self)
        ensures
            r.x == if p0.x <= p1.x { p0.x } else { p1.x },
            r.y == if p0.y <= p1.y { p0.y } else { p1.y },
            r.width == if p0.x <= p1.x { p1.x - p0.x } else { p0.x - p1.x },
            r.height == if p0.y <= p1.y { p1.y - p0.y } else { p0.y - p1.y },
    {
        let x0 = if p0.x <= p1.x { p0.x } else { p1.x };
        let y0 = if p0.y <= p1.y { p0.y } else { p1.y };
        let x1 = if p0.x <= p1.x { p1.x } else { p0.x };
        let y1 = if p0.y <= p1.y { p1.y } else { p0.y };
        let width: i64 = (x1 as i64) - (x0 as i64);
        let height: i64 = (y1 as i64) - (y0 as i64);
        Self::new(x0, y0, width as u32, height as u32)
    }

    pub fn bottom_left(&self) -> (p: Point)
        ensures
            p.x == self.x,
            p.y == self.y,
    {
        Point::new(self.x, self.y)
    }

    pub fn left(&self) -> (l: i32)
        ensures
            l == self.x,
    {
        self.x
    }

    pub fn bottom(&self) -> (b: i32)
        ensures
            b == self.y,
    {
        self.y
    }

    /// One past the rightmost column: `x + (width as i32)`.
    pub fn right(&self) -> (r: i32)
        requires
            i32::MIN <= self.x + u32_as_i32(self.width) <= i32::MAX,
        ensures
            r == self.x + u32_as_i32(self.width),
    {
        self.x + reinterpret_u32(self.width)
    }

    /// One past the highest row: `y + (height as i32)`.
    pub fn top(&self) -> (t: i32)
        requires
            i32::MIN <= self.y + u32_as_i32(self.height) <= i32::MAX,
        ensures
            t == self.y + u32_as_i32(self.height),
    {
        self.y + reinterpret_u32(self.height)
    }

    pub fn size(&self) -> (s: Size)
        ensures
            s.width == self.width,
            s.height == self.height,
    {
        Size::new(self.width, self.height)
    }
}

} // verus!
