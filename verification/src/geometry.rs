//! Geometry primitives: positions, per-axis speeds, sprite extents, and the
//! axis-aligned rectangles used for collision tests.

use vstd::prelude::*;

verus! {

/// An absolute position in screen pixels, top-left anchored.
#[derive(Clone, Copy, PartialEq, Eq, Structural, Debug)]
pub struct Point {
    pub x: i32,
    pub y: i32,
}

impl Point {
    pub fn new(x: i32, y: i32) -> (p: Point)
        ensures
            p.x == x,
            p.y == y,
    {
        Point { x, y }
    }
}

/// A per-axis signed speed in pixels per frame.
#[derive(Clone, Copy, PartialEq, Eq, Structural, Debug)]
pub struct Velocity {
    pub x: i32,
    pub y: i32,
}

impl Velocity {
    pub fn new(x: i32, y: i32) -> (v: Velocity)
        ensures
            v.x == x,
            v.y == y,
    {
        Velocity { x, y }
    }

    pub fn update(&mut self, x: i32, y: i32)
        ensures
            final(self).x == x,
            final(self).y == y,
    {
        self.x = x;
        self.y = y;
    }
}

/// Sprite extents in pixels, fixed at setup from the asset's size.
#[derive(Clone, Copy, PartialEq, Eq, Structural, Debug)]
pub struct Dimensions {
    pub width: i32,
    pub height: i32,
}

/// An axis-aligned rectangle: top-left corner `(x, y)`, extent `(w, h)`.
#[derive(Clone, Copy, PartialEq, Eq, Structural, Debug)]
pub struct Rect {
    pub x: i32,
    pub y: i32,
    pub w: i32,
    pub h: i32,
}

/// The mathematical value of a rectangle: the same corner and extent,
/// freed from the machine-integer bounds.
pub ghost struct RectModel {
    pub x: int,
    pub y: int,
    pub w: int,
    pub h: int,
}

/// Two axis-aligned rectangles overlap when their interiors truly
/// intersect; rectangles that merely touch along an edge do not count.
pub open spec fn rects_overlap(a: RectModel, b: RectModel) -> bool {
    &&& a.x < b.x + b.w
    &&& b.x < a.x + a.w
    &&& a.y < b.y + b.h
    &&& b.y < a.y + a.h
}

impl Rect {
    /// The rectangle as a mathematical value.
    pub open spec fn model(self) -> RectModel {
        RectModel { x: self.x as int, y: self.y as int, w: self.w as int, h: self.h as int }
    }

    pub fn new(x: i32, y: i32, w: i32, h: i32) -> (r: Rect)
        ensures
            r == (Rect { x, y, w, h }),
    {
        Rect { x, y, w, h }
    }

    /// Move the rectangle's top-left corner, keeping its extent.
    pub fn move_to(&mut self, x: i32, y: i32)
        ensures
            final(self).x == x,
            final(self).y == y,
            final(self).w == old(self).w,
            final(self).h == old(self).h,
    {
        self.x = x;
        self.y = y;
    }

    /// Axis-aligned overlap test, true intersection not touching.
    pub fn overlaps(&self, other: &Rect) -> (r: bool)
        ensures
            r == rects_overlap(self.model(), other.model()),
    {
        let ax: i64 = self.x as i64;
        let ay: i64 = self.y as i64;
        let bx: i64 = other.x as i64;
        let by: i64 = other.y as i64;
        ax < bx + other.w as i64 && bx < ax + self.w as i64 && ay < by + other.h as i64
            && by < ay + self.h as i64
    }
}

} // verus!
