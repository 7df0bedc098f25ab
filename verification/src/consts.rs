//! Fixed constants of the capture control plane.
//!
//! Quantities that the original hardware reports as fractional values are
//! carried as scaled integers throughout this crate: scores, sharpness and
//! occlusion in thousandths (`*_MILLI`), pixel means in thousandths of an
//! intensity level, mirror angles in millionths of a degree (`*_MICRO`), and
//! GPS coordinates in millionths of a degree.

use vstd::prelude::*;

verus! {

/// Minimal viable sharpness handed to the auto-focus agent, in thousandths.
pub const MIN_SHARPNESS_MILLI: i64 = 1200;

/// Target IR frame pixel mean handed to auto-exposure, in thousandths of an
/// intensity level.
pub const IR_TARGET_MEAN_MILLI: i64 = 135_000;

/// Minimal iris-quality score for a frame to be accepted, in thousandths.
pub const IRIS_SCORE_MIN_MILLI: i64 = 850;

/// Minimal sharpness below which an occlusion reading is distrusted, in
/// thousandths.
pub const IRIS_SHARPNESS_MIN_MILLI: i64 = 600;

/// Occlusion threshold for the centre LED indicator, in thousandths.
pub const THRESHOLD_OCCLUSION_30_MILLI: i64 = 600;

/// Lower bound (inclusive) of the accepted IR frame mean, in thousandths of
/// an intensity level.
pub const IRIS_BRIGHTNESS_RANGE_MIN_MILLI: i64 = 60_000;

/// Upper bound (exclusive) of the accepted IR frame mean, in thousandths of
/// an intensity level.
pub const IRIS_BRIGHTNESS_RANGE_MAX_MILLI: i64 = 190_000;

/// Time constant of the occlusion low-pass filter, in milliseconds.
pub const OCCLUSION_LOW_PASS_FILTER_RC_MS: u64 = 400;

/// Delay before the occlusion indicator can turn off after being set, in
/// milliseconds.
pub const OCCLUSION_INDICATOR_MIN_TIME_INTERVAL_MS: u64 = 450;

/// Numerator of the scalar applied to mirror offsets when blending them into
/// the persisted calibration.
pub const CONTINUOUS_CALIBRATION_REDUCER_NUM: i64 = 1;

/// Denominator of the scalar applied to mirror offsets when blending them
/// into the persisted calibration; the scalar is strictly below one.
pub const CONTINUOUS_CALIBRATION_REDUCER_DEN: i64 = 5;

/// External trigger rate of both IR cameras, in frames per second.
pub const IR_CAMERA_FRAME_RATE: u16 = 30;

/// Time for the IR camera to drain one or two residual frames after its
/// external trigger stops, in milliseconds.
pub const IR_CAMERA_STOP_DELAY_MS: u64 = 2 * 1000 / 30;

/// Default IR illuminator duration, in microseconds of PWM.
pub const DEFAULT_IR_LED_DURATION: u16 = 300;

/// Shortest IR illuminator duration accepted by auto-exposure.
pub const IR_LED_MIN_DURATION: u16 = 10;

/// Longest IR illuminator duration accepted by auto-exposure.
pub const IR_LED_MAX_DURATION: u16 = 600;

/// Longest IR illuminator duration accepted by auto-exposure at 740 nm,
/// which tolerates a longer pulse.
pub const IR_LED_MAX_DURATION_740NM: u16 = 1000;

/// Maximal delay the microcontroller may wait before cutting power on a
/// graceful shutdown, in seconds.
pub const GRACEFUL_SHUTDOWN_MAX_DELAY_SECONDS: u64 = 30;

/// Reduced RGB frame width for fisheye undistortion.
pub const RGB_REDUCED_WIDTH: u32 = 640;

/// Reduced RGB frame height for fisheye undistortion.
pub const RGB_REDUCED_HEIGHT: u32 = 480;

/// Bound on in-flight IR-net requests: a frame is dropped instead of queued
/// when this many sent frames still await their estimates.
pub const IR_NET_INBOX_CAPACITY: usize = 4;

/// Bound on in-flight RGB-net requests.
pub const RGB_NET_INBOX_CAPACITY: usize = 4;

/// Bound on the magnitude of a mirror coordinate, in millionths of a degree.
/// Keeping coordinates within this bound lets setpoint sums stay exact.
pub const MIRROR_COORD_LIMIT_MICRO: i64 = 1_000_000_000;

} // verus!
