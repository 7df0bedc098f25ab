//! Input types of the auxiliary agents hosted by the broker.

use vstd::prelude::*;
use crate::camera::{IrFrame, RgbFrame, ThermalFrame};
use crate::face_identifier::IsValidOutput;
use crate::ir_net;
use crate::mcu::IrLed;
use crate::rgb_net;

verus! {

/// Input of the liquid-lens auto-focus agent.
#[derive(Clone, Copy, Debug)]
pub enum AutoFocusInput {
    /// Sharpness below which the agent keeps sweeping, in thousandths.
    SetMinSharpness(i64),
    Reset,
    /// A raw frame, for internal sharpness calculation when the iris model
    /// is not running.
    Frame(IrFrame),
    /// Sharpness as estimated by the iris model.
    IrNetEstimate(ir_net::EstimateOutput),
    /// Face geometry from the landmark model.
    RgbNetEstimate(rgb_net::EstimateOutput),
}

/// Input of the IR auto-exposure agent.
#[derive(Clone, Copy, Debug)]
pub enum AutoExposureInput {
    /// Target frame mean, in thousandths of an intensity level.
    SetTargetMean(i64),
    /// Accepted exposure interval, inclusive, in microseconds.
    SetExposureRange(u16, u16),
    Frame(IrFrame),
}

/// Input of the eye tracker agent.
#[derive(Clone, Copy, Debug)]
pub enum EyeTrackerInput {
    Reset,
    /// Fisheye undistortion parameters: reduced width and height, or none
    /// to clear them.
    Fisheye(Option<(u32, u32)>),
    /// Track the targeted eye at this landmark.
    Track { target_left_eye: bool, landmark: rgb_net::Point },
}

/// Builds the tracking input for the targeted eye, when the estimate makes
/// tracking possible: the landmark model must have found a face.
pub fn track(target_left_eye: bool, estimate: &rgb_net::EstimateOutput) -> (r: Option<
    EyeTrackerInput,
>)
    ensures
        match estimate.primary {
            Some(p) => r == Some(
                EyeTrackerInput::Track {
                    target_left_eye,
                    landmark: if target_left_eye {
                        p.left_eye
                    } else {
                        p.right_eye
                    },
                },
            ),
            None => r is None,
        },
{
    match estimate.primary {
        Some(p) => Some(
            EyeTrackerInput::Track {
                target_left_eye,
                landmark: if target_left_eye {
                    p.left_eye
                } else {
                    p.right_eye
                },
            },
        ),
        None => None,
    }
}

/// Input of the eye PID mirror controller agent.
#[derive(Clone, Copy, Debug)]
pub enum EyePidInput {
    /// The targeted eye changed.
    SwitchEye,
    Reset,
    IrNetEstimate(ir_net::EstimateOutput),
}

/// Input of the user-distance agent.
#[derive(Clone, Copy, Debug)]
pub enum DistanceInput {
    Reset,
    IrNetEstimate(ir_net::EstimateOutput),
    RgbNetEstimate(rgb_net::EstimateOutput),
}

/// Input of the QR code reader agent.
#[derive(Clone, Copy, Debug)]
pub enum QrCodeInput {
    Frame(RgbFrame),
}

/// Input of the image notary agent, which records what the session saw.
#[derive(Clone, Copy, Debug)]
pub enum NotaryInput {
    /// Opens the per-signup history under an opaque identifier.
    InitializeSignup { signup_id: u64, is_opt_in: bool },
    SaveIrNetEstimate {
        estimate: Option<ir_net::EstimateOutput>,
        frame: IrFrame,
        wavelength: IrLed,
        target_left_eye: bool,
    },
    SaveRgbNetEstimate { estimate: rgb_net::EstimateOutput, frame: RgbFrame },
    SaveIrFaceData { frame: IrFrame, wavelength: IrLed },
    SaveThermalData { frame: ThermalFrame, wavelength: IrLed },
    SaveFusionRnFi { estimate: rgb_net::EstimateOutput, is_valid: IsValidOutput, frame: RgbFrame },
    FinalizeSignup,
}

/// Input of the image uploader agent; it takes no input during capture.
#[derive(Clone, Copy, Debug)]
pub struct UploaderInput;

/// Request consumed by the model host that runs the landmark and
/// face-validity models.
#[derive(Clone, Copy, Debug)]
pub enum MegaAgentTwoRequest {
    /// Estimate landmarks only.
    RgbNet(RgbFrame),
    /// Estimate landmarks and face validity in one fused pass.
    FusionRgbNetFaceIdentifier(RgbFrame),
}

} // verus!
