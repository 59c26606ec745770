//! Positions, directions and colours, in fixed point.
//!
//! Every quantity is an integer count of tenths: the coordinate `25` is two
//! and a half world units, the colour channel `3` is three tenths of full
//! intensity. The scene only ever needs one decimal place, and integers keep
//! equality exact.

use vstd::prelude::*;

verus! {

/// A point or a direction in world space, each coordinate in tenths of a unit.
#[derive(Clone, Copy, Debug, PartialEq, Eq, Structural)]
pub struct Point3 {
    pub x: i32,
    pub y: i32,
    pub z: i32,
}

impl Point3 {
    /// The point with the given coordinates, in tenths.
    pub fn new(x: i32, y: i32, z: i32) -> (p: Point3)
        ensures
            p == (Point3 { x, y, z }),
    {
        Point3 { x, y, z }
    }

    /// The origin of world space.
    pub open spec fn spec_origin() -> Point3 {
        Point3 { x: 0, y: 0, z: 0 }
    }

    /// The unit vector along the vertical axis, one whole unit long.
    pub open spec fn spec_unit_y() -> Point3 {
        Point3 { x: 0, y: 10, z: 0 }
    }

    /// The origin of world space.
    pub fn origin() -> (p: Point3)
        ensures
            p == Point3::spec_origin(),
    {
        Point3 { x: 0, y: 0, z: 0 }
    }

    /// The unit vector along the vertical axis.
    pub fn unit_y() -> (p: Point3)
        ensures
            p == Point3::spec_unit_y(),
    {
        Point3 { x: 0, y: 10, z: 0 }
    }
}

/// An opaque colour, each channel in tenths of full intensity.
#[derive(Clone, Copy, Debug, PartialEq, Eq, Structural)]
pub struct Rgb {
    pub red: u8,
    pub green: u8,
    pub blue: u8,
}

} // verus!
