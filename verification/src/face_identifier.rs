//! Output schema of the face-validity model agent.

use vstd::prelude::*;
use crate::rgb_net::{Point, Rectangle};

verus! {

/// Marker for a model-side error report. The error text stays with the
/// model agent; the control plane only observes its presence.
#[derive(Clone, Copy, Debug, PartialEq, Eq, Structural)]
pub struct ModelError;

/// The face-validity verdict for one color frame.
#[derive(Clone, Copy, Debug)]
pub struct IsValidOutput {
    /// Whether the frame is a valid self-custody face image.
    pub is_valid: Option<bool>,
    /// Validity score, in thousandths.
    pub score_milli: Option<i64>,
    /// Model-side error report, if any.
    pub error: Option<ModelError>,
    /// Face bounding box seen by the landmark model on the same frame.
    pub rgb_net_bbox: Rectangle,
    /// Eye landmarks seen by the landmark model, left then right.
    pub rgb_net_eye_landmarks: (Point, Point),
}

/// An output of the face-validity model agent.
#[derive(Clone, Copy, Debug)]
pub enum Output {
    IsValidImage(IsValidOutput),
}

} // verus!
