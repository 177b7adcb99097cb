//! Where the pointer is put.

use vstd::prelude::*;

use crate::event::Vector;

verus! {

/// A point in the space that the outputs lie in.
#[derive(Clone, Copy, PartialEq, Eq, Debug)]
pub struct Point {
    pub x: i32,
    pub y: i32,
}

/// The size of an output.
#[derive(Clone, Copy, PartialEq, Eq, Debug)]
pub struct Size {
    pub w: i32,
    pub h: i32,
}

/// The place of an output.
#[derive(Clone, Copy, PartialEq, Eq, Debug)]
pub struct Rectangle {
    pub loc: Point,
    pub size: Size,
}

/// Inclusive limits of both coordinates of a position.
#[derive(Clone, Copy, PartialEq, Eq, Debug)]
pub struct Bounds {
    pub x_min: i32,
    pub x_max: i32,
    pub y_min: i32,
    pub y_max: i32,
}

/// A position of the pointer, given by how it comes about.
#[derive(Clone, Copy, PartialEq, Eq, Debug)]
pub enum Location {
    /// Where the pointer is.
    Current,
    /// Where it is, moved by `delta`.
    Moved { delta: Vector },
    /// Where it is, moved by `delta`, then each coordinate clamped to the bounds.
    MovedWithin { delta: Vector, bounds: Bounds },
    /// The center of an output.
    CenterOf(Rectangle),
    /// The position that the event gives, on an output that stands for the whole device.
    EventOn(Rectangle),
}

impl Rectangle {
    /// It holds at least one point, and `loc + size`, which is one beyond its last point in each
    /// direction, still has coordinates.
    pub open spec fn has_bounds(self) -> bool {
        &&& self.size.w >= 1
        &&& self.size.h >= 1
        &&& self.loc.x + self.size.w <= i32::MAX
        &&& self.loc.y + self.size.h <= i32::MAX
    }

    /// The limits of the coordinates of its points.
    pub open spec fn limits(self) -> Bounds {
        Bounds {
            x_min: self.loc.x,
            x_max: (self.loc.x + self.size.w - 1) as i32,
            y_min: self.loc.y,
            y_max: (self.loc.y + self.size.h - 1) as i32,
        }
    }

    /// Whether it is a place that a position can be clamped to.
    pub fn can_clip(&self) -> (res: bool)
        ensures
            res == self.has_bounds(),
    {
        self.size.w >= 1 && self.size.h >= 1
            && self.loc.x as i64 + self.size.w as i64 <= i32::MAX as i64
            && self.loc.y as i64 + self.size.h as i64 <= i32::MAX as i64
    }

    pub fn bounds(&self) -> (res: Bounds)
        requires
            self.has_bounds(),
        ensures
            res == self.limits(),
    {
        Bounds {
            x_min: self.loc.x,
            x_max: self.loc.x + self.size.w - 1,
            y_min: self.loc.y,
            y_max: self.loc.y + self.size.h - 1,
        }
    }
}

} // verus!
