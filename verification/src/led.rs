//! User-feedback events emitted towards the LED engine.
//!
//! Rendering pixels is a non-goal of the control plane: it only records, in
//! order, what the LED engine is asked to show.

use vstd::prelude::*;

verus! {

/// One request to the LED engine.
#[derive(Clone, Copy, Debug, PartialEq, Eq, Structural)]
pub enum Event {
    /// Session progress, in thousandths of the full bar.
    BiometricCaptureProgress(i64),
    BiometricCaptureHalfObjectivesCompleted,
    BiometricCaptureAllObjectivesCompleted,
    /// Occlusion indicator on or off.
    BiometricCaptureOcclusion(bool),
}

} // verus!
