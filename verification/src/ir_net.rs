//! Output schema of the iris-quality model agent.

use vstd::prelude::*;
use crate::camera::IrFrame;

verus! {

/// One iris-quality estimate. Fractional model outputs are carried in
/// thousandths; a reading the model could not produce (a NaN on the wire) is
/// `None`.
#[derive(Clone, Copy, Debug, PartialEq, Eq, Structural)]
pub struct EstimateOutput {
    /// Image sharpness, in thousandths.
    pub sharpness_milli: Option<i64>,
    /// Iris quality score, in thousandths.
    pub score_milli: i64,
    /// Which eye the model believes it sees: `0` for the right eye, `1` for
    /// the left, `None` when undecided.
    pub perceived_side: Option<i64>,
    /// Fraction of the iris 30-degree band left unoccluded, in thousandths.
    pub occlusion_30_milli: Option<i64>,
}

/// An output of the iris-quality model agent.
#[derive(Clone, Copy, Debug, PartialEq, Eq, Structural)]
pub enum Output {
    Estimate(EstimateOutput),
    /// Model version report, ignored during capture.
    Version(u64),
    /// Model subprocess failure; the session keeps running.
    Error,
}

/// A request consumed by the iris-quality model agent.
#[derive(Clone, Copy, Debug, PartialEq, Eq, Structural)]
pub struct EstimateRequest {
    pub frame: IrFrame,
    pub target_left_eye: bool,
    pub focus_matrix_code: bool,
}

} // verus!
