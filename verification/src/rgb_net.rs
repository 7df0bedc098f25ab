//! Output schema of the face-landmark model agent.

use vstd::prelude::*;

verus! {

/// A landmark position in the reduced RGB frame, in thousandths of a pixel.
#[derive(Clone, Copy, Debug, PartialEq, Eq, Structural)]
pub struct Point {
    pub x_milli: i64,
    pub y_milli: i64,
}

/// An axis-aligned bounding box given by two corners.
#[derive(Clone, Copy, Debug, PartialEq, Eq, Structural)]
pub struct Rectangle {
    pub start: Point,
    pub end: Point,
}

impl Rectangle {
    /// Whether the corner coordinates are ordered; integer coordinates are
    /// always finite.
    pub open spec fn spec_is_correct(self) -> bool {
        self.start.x_milli <= self.end.x_milli && self.start.y_milli <= self.end.y_milli
    }

    /// Whether the box is well-formed: coordinates ordered on both axes.
    pub fn is_correct(&self) -> (r: bool)
        ensures
            r == self.spec_is_correct(),
    {
        self.start.x_milli <= self.end.x_milli && self.start.y_milli <= self.end.y_milli
    }
}

/// The model's best face prediction: the face bounding box and the two eye
/// landmarks, left then right.
#[derive(Clone, Copy, Debug, PartialEq, Eq, Structural)]
pub struct Prediction {
    pub bbox: Rectangle,
    pub left_eye: Point,
    pub right_eye: Point,
}

/// One face-landmark estimate.
#[derive(Clone, Copy, Debug, PartialEq, Eq, Structural)]
pub struct EstimateOutput {
    /// The primary prediction, absent when no face was found.
    pub primary: Option<Prediction>,
}

impl EstimateOutput {
    /// The primary prediction, absent when no face was found.
    pub fn primary(&self) -> (r: Option<Prediction>)
        ensures
            r == self.primary,
    {
        self.primary
    }
}

/// An output of the face-landmark model agent.
#[derive(Clone, Copy, Debug, PartialEq, Eq, Structural)]
pub enum Output {
    Estimate(EstimateOutput),
    /// Undistortion-map initialisation report, unexpected during capture.
    InitUndistort,
}

} // verus!
