//! What the firmware knows of the gyroscope: its address strap, its
//! measurement ranges, and the shape of one reading.
use vstd::prelude::*;

verus! {

/// One of the three angular-rate axes.
#[derive(Clone, Copy, Debug, PartialEq, Eq, Structural)]
pub enum Axis {
    X,
    Y,
    Z,
}

/// Full-scale range of the angular-rate measurement, in degrees per second.
#[derive(Clone, Copy, Debug, PartialEq, Eq, Structural)]
pub enum GyroRange {
    Deg250,
    Deg500,
    Deg1000,
    Deg2000,
}

/// Which of the two bus addresses the device is strapped to.
#[derive(Clone, Copy, Debug, PartialEq, Eq, Structural)]
pub enum Address {
    Primary,
    Secondary,
}

/// One angular-rate reading, normalized by the driver, in micro-degrees
/// per second on each axis.
#[derive(Clone, Copy, Debug, PartialEq, Eq, Structural)]
pub struct Sample {
    pub x: i32,
    pub y: i32,
    pub z: i32,
}

impl Sample {
    pub open spec fn spec_axis(self, axis: Axis) -> i32 {
        match axis {
            Axis::X => self.x,
            Axis::Y => self.y,
            Axis::Z => self.z,
        }
    }

    /// The reading on one axis.
    pub fn axis(&self, axis: Axis) -> (r: i32)
        ensures
            r == self.spec_axis(axis),
    {
        match axis {
            Axis::X => self.x,
            Axis::Y => self.y,
            Axis::Z => self.z,
        }
    }
}

} // verus!
