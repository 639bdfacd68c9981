//! Plain 2D geometry carried in fixed-point micro-units.

use vstd::prelude::*;
use crate::fixed::clamp_spec;
use crate::fixed::clamp_i64;

verus! {

/// A 2D point or displacement, each axis in micro-units.
#[derive(Clone, Copy, PartialEq, Eq, Structural, Debug)]
pub struct Vec2 {
    pub x: i64,
    pub y: i64,
}

impl Vec2 {
    /// The origin.
    pub fn zero() -> (r: Vec2)
        ensures
            r.x == 0 && r.y == 0,
    {
        Vec2 { x: 0, y: 0 }
    }

    /// Builds a point from its two axes.
    pub fn new(x: i64, y: i64) -> (r: Vec2)
        ensures
            r.x == x && r.y == y,
    {
        Vec2 { x, y }
    }

    /// True when both axes are within `limit` of zero.
    pub open spec fn within_spec(self, limit: int) -> bool {
        -limit <= self.x <= limit && -limit <= self.y <= limit
    }

    /// Tests whether both axes are within `limit` of zero.
    pub fn within(self, limit: i64) -> (r: bool)
        requires
            limit >= 0,
        ensures
            r == self.within_spec(limit as int),
    {
        -limit <= self.x && self.x <= limit && -limit <= self.y && self.y <= limit
    }

    /// Both axes clamped into `[-limit, limit]`.
    pub fn clamped(self, limit: i64) -> (r: Vec2)
        requires
            limit >= 0,
        ensures
            r.x == clamp_spec(self.x as int, -limit as int, limit as int),
            r.y == clamp_spec(self.y as int, -limit as int, limit as int),
    {
        Vec2 { x: clamp_i64(self.x, -limit, limit), y: clamp_i64(self.y, -limit, limit) }
    }
}

/// A size in whole pixels.
#[derive(Clone, Copy, PartialEq, Eq, Structural, Debug)]
pub struct Extent2 {
    pub w: u32,
    pub h: u32,
}

impl Extent2 {
    /// Builds a size from width and height.
    pub fn new(w: u32, h: u32) -> (r: Extent2)
        ensures
            r == (Extent2 { w, h }),
    {
        Extent2 { w, h }
    }
}

/// An axis-aligned rectangle: origin plus extent, in micro-units.
#[derive(Clone, Copy, PartialEq, Eq, Structural, Debug)]
pub struct Rect {
    pub x: i64,
    pub y: i64,
    pub w: i64,
    pub h: i64,
}

impl Rect {
    /// Builds a rectangle from origin and extent.
    pub fn new(x: i64, y: i64, w: i64, h: i64) -> (r: Rect)
        ensures
            r == (Rect { x, y, w, h }),
    {
        Rect { x, y, w, h }
    }

    /// The degenerate rectangle at the origin.
    pub fn zero() -> (r: Rect)
        ensures
            r == (Rect { x: 0i64, y: 0i64, w: 0i64, h: 0i64 }),
    {
        Rect { x: 0, y: 0, w: 0, h: 0 }
    }

    /// True when every field is within `limit` of zero.
    pub open spec fn within_spec(self, limit: int) -> bool {
        &&& -limit <= self.x <= limit
        &&& -limit <= self.y <= limit
        &&& -limit <= self.w <= limit
        &&& -limit <= self.h <= limit
    }

    /// The rectangle moved by `(dx, dy)` with its extent grown by
    /// `(dw, dh)`.
    pub fn adjusted_by(self, dx: i64, dy: i64, dw: i64, dh: i64) -> (r: Rect)
        requires
            -0x4000_0000_0000_0000 < self.x + dx < 0x4000_0000_0000_0000,
            -0x4000_0000_0000_0000 < self.y + dy < 0x4000_0000_0000_0000,
            -0x4000_0000_0000_0000 < self.w + dw < 0x4000_0000_0000_0000,
            -0x4000_0000_0000_0000 < self.h + dh < 0x4000_0000_0000_0000,
        ensures
            r.x == self.x + dx,
            r.y == self.y + dy,
            r.w == self.w + dw,
            r.h == self.h + dh,
    {
        Rect { x: self.x + dx, y: self.y + dy, w: self.w + dw, h: self.h + dh }
    }

    /// Whether the point lies inside the rectangle, borders included.
    pub open spec fn contains_spec(self, px: int, py: int) -> bool {
        &&& self.x <= px <= self.x + self.w
        &&& self.y <= py <= self.y + self.h
    }

    /// Tests whether the point lies inside the rectangle, borders
    /// included.
    pub fn contains(self, px: i64, py: i64) -> (r: bool)
        requires
            -0x4000_0000_0000_0000 < self.x + self.w < 0x4000_0000_0000_0000,
            -0x4000_0000_0000_0000 < self.y + self.h < 0x4000_0000_0000_0000,
        ensures
            r == self.contains_spec(px as int, py as int),
    {
        self.x <= px && px <= self.x + self.w && self.y <= py && py <= self.y + self.h
    }
}

impl Default for Rect {
    /// The degenerate rectangle at the origin.
    fn default() -> (r: Rect)
        ensures
            r == (Rect { x: 0i64, y: 0i64, w: 0i64, h: 0i64 }),
    {
        Rect { x: 0, y: 0, w: 0, h: 0 }
    }
}

} // verus!
