//! Persisted mirror calibration.

use vstd::prelude::*;

verus! {

/// Calibrated mirror offsets, in millionths of a degree per axis.
#[derive(Clone, Copy, Debug, PartialEq, Eq, Structural)]
pub struct MirrorCalibration {
    pub horizontal_offset: i64,
    pub vertical_offset: i64,
}

/// The device calibration owned by the orb facade. Loading and persisting it
/// are the caller's concern; this crate only transforms the value.
#[derive(Clone, Copy, Debug, PartialEq, Eq, Structural)]
pub struct Calibration {
    pub mirror: MirrorCalibration,
}

impl Default for Calibration {
    /// A neutral calibration with both offsets at the origin.
    fn default() -> (r: Self)
        ensures
            r == (Calibration { mirror: MirrorCalibration { horizontal_offset: 0, vertical_offset: 0 } }),
    {
        Calibration { mirror: MirrorCalibration { horizontal_offset: 0, vertical_offset: 0 } }
    }
}

} // verus!
