//! Two-axis steering mirror: setpoints and the actuator's command history.

use vstd::prelude::*;
use crate::calibration::Calibration;
use crate::consts::MIRROR_COORD_LIMIT_MICRO;

verus! {

/// A mirror position or offset, in millionths of a degree per axis.
#[derive(Clone, Copy, Debug, PartialEq, Eq, Structural)]
pub struct Point {
    pub horizontal: i64,
    pub vertical: i64,
}

impl Point {
    /// Both coordinates within the range that keeps setpoint sums exact.
    pub open spec fn in_range(self) -> bool {
        -MIRROR_COORD_LIMIT_MICRO <= self.horizontal <= MIRROR_COORD_LIMIT_MICRO
            && -MIRROR_COORD_LIMIT_MICRO <= self.vertical <= MIRROR_COORD_LIMIT_MICRO
    }

    /// Coordinate-wise sum, used to combine the eye tracker's point with the
    /// PID controller's offset.
    pub fn plus(self, other: Point) -> (r: Point)
        requires
            self.in_range(),
            other.in_range(),
        ensures
            r.horizontal == self.horizontal + other.horizontal,
            r.vertical == self.vertical + other.vertical,
    {
        Point { horizontal: self.horizontal + other.horizontal, vertical: self.vertical + other.vertical }
    }

    /// The origin, used when only one of point and offset is known yet.
    pub fn zero() -> (r: Point)
        ensures
            r == (Point { horizontal: 0, vertical: 0 }),
    {
        Point { horizontal: 0, vertical: 0 }
    }
}

/// A command accepted by the mirror actuator agent.
#[derive(Clone, Copy, Debug, PartialEq, Eq, Structural)]
pub enum Command {
    /// Drive the mirror to this position.
    SetPoint(Point),
    /// Reload the persisted calibration.
    Recalibrate(Calibration),
}

} // verus!
