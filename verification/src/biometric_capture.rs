//! The biometric-capture plan: an objective-driven state machine that
//! decides which eye is targeted, which wavelength is active, when quality
//! is good enough to accept a frame, and when the session terminates.

use vstd::prelude::*;
use std::collections::VecDeque;
use crate::calibration::Calibration;
use crate::camera::{IrFrame, RgbFrame};
use crate::consts::{
    CONTINUOUS_CALIBRATION_REDUCER_DEN, CONTINUOUS_CALIBRATION_REDUCER_NUM,
    IR_TARGET_MEAN_MILLI, IRIS_BRIGHTNESS_RANGE_MAX_MILLI, IRIS_BRIGHTNESS_RANGE_MIN_MILLI,
    IRIS_SCORE_MIN_MILLI, IRIS_SHARPNESS_MIN_MILLI, MIN_SHARPNESS_MILLI,
    OCCLUSION_INDICATOR_MIN_TIME_INTERVAL_MS, OCCLUSION_LOW_PASS_FILTER_RC_MS, RGB_REDUCED_HEIGHT,
    RGB_REDUCED_WIDTH, THRESHOLD_OCCLUSION_30_MILLI,
};
use crate::face_identifier;
use crate::ir_net;
use crate::led;
use crate::mcu::IrLed;
use crate::mirror;
use crate::orb::{Event, MegaAgentTwoOutput, Orb, Telemetry};
use crate::pid::{LowPassFilter, lpf_next, valid_milli};
use crate::rgb_net;
use crate::BrokerFlow;

verus! {

/// Share of the progress bar the objectives may fill, in thousandths.
pub const MAX_PROGRESS_MILLI: i64 = 800;

/// Share of the progress bar reserved for the face-validity milestone, in
/// thousandths.
pub const FACE_IDENTIFIED_PROGRESS_MILLI: i64 = 250;

/// Bound on the number of wavelengths a plan is built over.
pub const MAX_WAVELENGTHS: usize = 1000;

/// Bound on the magnitude of a persisted calibration offset this crate
/// blends into, in millionths of a degree.
pub const CALIBRATION_OFFSET_LIMIT_MICRO: i64 = 1_000_000_000_000;

/// One capture objective: an eye, a wavelength and its duration, and
/// whether color frames bypass the face-validity model.
#[derive(Clone, Copy, Debug, PartialEq, Eq, Structural)]
pub struct Objective {
    pub target_left_eye: bool,
    pub ir_led_wavelength: IrLed,
    pub ir_led_duration: u16,
    pub only_rgb_net_frames: bool,
}

/// An accepted estimate together with the frame it was derived from.
#[derive(Clone, Copy, Debug)]
pub struct FrameInfo<T, U> {
    pub estimate: T,
    pub frame: U,
}

/// Biometric data captured for one of the user's eyes.
#[derive(Clone, Copy, Debug)]
pub struct EyeCapture {
    /// The accepted IR frame.
    pub ir_frame: IrFrame,
    /// IR frame at 940 nm, where a session collects one.
    pub ir_frame_940nm: Option<IrFrame>,
    /// IR frame at 740 nm, where a session collects one.
    pub ir_frame_740nm: Option<IrFrame>,
    /// The estimate that accepted `ir_frame`.
    pub ir_net_estimate: ir_net::EstimateOutput,
    /// The accepted color frame.
    pub rgb_frame: RgbFrame,
    /// The estimate that accepted `rgb_frame`.
    pub rgb_net_estimate: rgb_net::EstimateOutput,
}

/// The face frame kept for self-custody, with the landmarks that vouched
/// for it.
#[derive(Clone, Copy, Debug)]
pub struct SelfCustodyCandidate {
    pub rgb_frame: RgbFrame,
    pub rgb_net_eye_landmarks: (rgb_net::Point, rgb_net::Point),
    pub rgb_net_bbox: rgb_net::Rectangle,
}

/// Combined data for both eyes, the self-custody face, and the averaged
/// GPS position, in millionths of a degree.
#[derive(Clone, Copy, Debug)]
pub struct Capture {
    pub eye_left: EyeCapture,
    pub eye_right: EyeCapture,
    pub face_self_custody_candidate: SelfCustodyCandidate,
    pub latitude_microdeg: Option<i64>,
    pub longitude_microdeg: Option<i64>,
}

/// Configuration history of one capture session.
#[derive(Clone, Debug)]
pub struct Log {
    pub ir_eye_camera: Vec<crate::camera::IrCommand>,
    pub ir_face_camera: Vec<crate::camera::IrCommand>,
    pub main_mcu: Vec<crate::mcu::Input>,
    pub mirror: Vec<mirror::Command>,
}

/// Biometric capture output: the capture if the session succeeded, and the
/// history either way.
#[derive(Clone, Debug)]
pub struct Output {
    pub capture: Option<Capture>,
    pub log: Log,
}

/// The biometric-capture plan state.
pub struct Plan {
    /// Objectives still to satisfy, in order.
    pub objectives: VecDeque<Objective>,
    pub target_left_eye: bool,
    /// Monotonic deadline of the session, in milliseconds, if any.
    pub timeout_deadline_ms: Option<u64>,
    pub timed_out: bool,
    pub left_ir: Option<FrameInfo<ir_net::EstimateOutput, IrFrame>>,
    pub left_rgb: Option<FrameInfo<rgb_net::EstimateOutput, RgbFrame>>,
    pub right_ir: Option<FrameInfo<ir_net::EstimateOutput, IrFrame>>,
    pub right_rgb: Option<FrameInfo<rgb_net::EstimateOutput, RgbFrame>>,
    pub self_custody_candidate_rgb: Option<FrameInfo<face_identifier::IsValidOutput, RgbFrame>>,
    /// Running average of GPS latitude, in millionths of a degree.
    pub latitude_microdeg: Option<i64>,
    /// Running average of GPS longitude, in millionths of a degree.
    pub longitude_microdeg: Option<i64>,
    pub gps_points: usize,
    /// Best sharpness seen within the current objective, in thousandths.
    pub max_sharpness_milli: i64,
    pub total_objectives: usize,
    /// When the occlusion filter was last updated, in milliseconds.
    pub occlusion_timer_last_ms: Option<u64>,
    pub occlusion_30_filter: LowPassFilter,
    /// When the occlusion indicator turned on, in milliseconds, while it is
    /// on.
    pub occlusion_indicator_on_time_ms: Option<u64>,
    /// Mirror offsets collected between objectives, for re-calibration.
    pub mirror_offsets: Vec<mirror::Point>,
    /// Model failures absorbed during the session.
    pub model_errors: u64,
}

/// The objective queue a session starts from: every wavelength for the
/// first eye with face validity postponed, then every wavelength for the
/// other eye with the fused request enabled.
pub open spec fn objectives_for(wavelengths: Seq<(IrLed, u16)>, first_left: bool) -> Seq<
    Objective,
> {
    wavelengths.map_values(
        |p: (IrLed, u16)|
            Objective {
                target_left_eye: first_left,
                ir_led_wavelength: p.0,
                ir_led_duration: p.1,
                only_rgb_net_frames: true,
            },
    ) + wavelengths.map_values(
        |p: (IrLed, u16)|
            Objective {
                target_left_eye: !first_left,
                ir_led_wavelength: p.0,
                ir_led_duration: p.1,
                only_rgb_net_frames: false,
            },
    )
}

/// The perceived side that matches an objective: the model reports `1` for
/// the left eye and `0` for the right.
pub open spec fn expected_side(target_left_eye: bool) -> i64 {
    if target_left_eye {
        1
    } else {
        0
    }
}

/// Whether a frame mean lies in the accepted brightness interval, inclusive
/// below and exclusive above.
pub open spec fn in_brightness_range(mean_milli: i64) -> bool {
    IRIS_BRIGHTNESS_RANGE_MIN_MILLI <= mean_milli < IRIS_BRIGHTNESS_RANGE_MAX_MILLI
}

/// Whether an estimate and its frame pass the acceptance gate: the score
/// reaches the minimum, and — with auto-exposure running — the frame mean
/// lies in the brightness interval.
pub open spec fn ir_accepts(
    est: ir_net::EstimateOutput,
    frame: IrFrame,
    auto_exposure_enabled: bool,
) -> bool {
    est.score_milli >= IRIS_SCORE_MIN_MILLI && (!auto_exposure_enabled || in_brightness_range(
        frame.mean_milli,
    ))
}

/// An estimate whose fractional fields lie in the range the fixed-point
/// arithmetic keeps exact.
pub open spec fn valid_estimate(est: ir_net::EstimateOutput) -> bool {
    &&& (est.sharpness_milli matches Some(s) ==> valid_milli(s))
    &&& valid_milli(est.score_milli)
    &&& (est.occlusion_30_milli matches Some(o) ==> valid_milli(o))
}

/// Relies on `rand::random`: a fair coin toss; nothing is assumed of the
/// outcome.
#[verifier::external_body]
fn random_bool() -> bool {
    rand::random()
}

impl Plan {
    /// Counts and bounds that every plan operation preserves.
    pub open spec fn wf(self) -> bool {
        &&& self.objectives@.len() <= self.total_objectives <= 2 * MAX_WAVELENGTHS
        &&& 0 <= self.max_sharpness_milli <= crate::pid::SIGNAL_LIMIT_MILLI
        &&& self.occlusion_30_filter.wf()
        &&& (self.latitude_microdeg matches Some(l) ==> -90_000_000 <= l <= 90_000_000)
        &&& (self.longitude_microdeg matches Some(l) ==> -180_000_000 <= l <= 180_000_000)
        &&& (self.latitude_microdeg is Some <==> self.gps_points >= 1)
        &&& (self.longitude_microdeg is Some <==> self.gps_points >= 1)
        &&& (forall|i: int|
            0 <= i < self.mirror_offsets@.len() ==> (#[trigger] self.mirror_offsets@[i]).in_range())
    }

    /// The plan's clocks never run ahead of the caller's.
    pub open spec fn clock_ok(self, now_ms: u64) -> bool {
        &&& (self.occlusion_timer_last_ms matches Some(t) ==> t <= now_ms)
        &&& (self.occlusion_indicator_on_time_ms matches Some(t) ==> t <= now_ms)
    }

    /// Builds the plan with a chosen starting eye: the objective queue
    /// cross-produces the wavelength list with both eyes, the second phase
    /// enabling the face-validity fusion.
    pub fn with_start_side(
        wavelengths: &Vec<(IrLed, u16)>,
        timeout_ms: Option<u64>,
        now_ms: u64,
        first_left: bool,
    ) -> (r: Plan)
        requires
            wavelengths@.len() <= MAX_WAVELENGTHS,
            timeout_ms matches Some(t) ==> now_ms + t <= u64::MAX,
        ensures
            r.wf(),
            r.objectives@ == objectives_for(wavelengths@, first_left),
            r.total_objectives == 2 * wavelengths@.len(),
            !r.target_left_eye,
            r.timeout_deadline_ms == (match timeout_ms {
                Some(t) => Some((now_ms + t) as u64),
                None => None::<u64>,
            }),
            !r.timed_out,
            r.left_ir is None,
            r.left_rgb is None,
            r.right_ir is None,
            r.right_rgb is None,
            r.self_custody_candidate_rgb is None,
            r.latitude_microdeg is None,
            r.longitude_microdeg is None,
            r.gps_points == 0,
            r.max_sharpness_milli == 0,
            r.occlusion_timer_last_ms is None,
            r.occlusion_30_filter.state_milli is None,
            r.occlusion_indicator_on_time_ms is None,
            r.mirror_offsets@ == Seq::<mirror::Point>::empty(),
            r.model_errors == 0,
    {
        let mut objectives: VecDeque<Objective> = VecDeque::new();
        let n = wavelengths.len();
        let mut i: usize = 0;
        while i < n
            invariant
                0 <= i <= n,
                n == wavelengths@.len(),
                objectives@ =~= objectives_for(wavelengths@, first_left).subrange(0, i as int),
                n <= MAX_WAVELENGTHS,
            decreases n - i,
        {
            let (w, d) = wavelengths[i];
            objectives.push_back(
                Objective {
                    target_left_eye: first_left,
                    ir_led_wavelength: w,
                    ir_led_duration: d,
                    only_rgb_net_frames: true,
                },
            );
            i = i + 1;
            proof {
                assert(objectives@ =~= objectives_for(wavelengths@, first_left).subrange(
                    0,
                    i as int,
                ));
            }
        }
        let mut j: usize = 0;
        while j < n
            invariant
                0 <= j <= n,
                n == wavelengths@.len(),
                objectives@ =~= objectives_for(wavelengths@, first_left).subrange(
                    0,
                    n + j as int,
                ),
                n <= MAX_WAVELENGTHS,
            decreases n - j,
        {
            let (w, d) = wavelengths[j];
            objectives.push_back(
                Objective {
                    target_left_eye: !first_left,
                    ir_led_wavelength: w,
                    ir_led_duration: d,
                    only_rgb_net_frames: false,
                },
            );
            j = j + 1;
            proof {
                assert(objectives@ =~= objectives_for(wavelengths@, first_left).subrange(
                    0,
                    n + j as int,
                ));
            }
        }
        proof {
            assert(objectives@ =~= objectives_for(wavelengths@, first_left));
        }
        let total_objectives = objectives.len();
        let timeout_deadline_ms = match timeout_ms {
            Some(t) => Some(now_ms + t),
            None => None,
        };
        Plan {
            objectives,
            target_left_eye: false,
            timeout_deadline_ms,
            timed_out: false,
            left_ir: None,
            left_rgb: None,
            right_ir: None,
            right_rgb: None,
            self_custody_candidate_rgb: None,
            latitude_microdeg: None,
            longitude_microdeg: None,
            gps_points: 0,
            max_sharpness_milli: 0,
            total_objectives,
            occlusion_timer_last_ms: None,
            occlusion_30_filter: LowPassFilter::new(),
            occlusion_indicator_on_time_ms: None,
            mirror_offsets: Vec::new(),
            model_errors: 0,
        }
    }

    /// Creates a new biometric-capture plan, starting with a randomly
    /// chosen eye; everything else is as `with_start_side` promises.
    pub fn new(wavelengths: &Vec<(IrLed, u16)>, timeout_ms: Option<u64>, now_ms: u64) -> (r: Plan)
        requires
            wavelengths@.len() <= MAX_WAVELENGTHS,
            timeout_ms matches Some(t) ==> now_ms + t <= u64::MAX,
        ensures
            r.wf(),
            exists|first_left: bool| r.objectives@ == objectives_for(wavelengths@, first_left),
            r.total_objectives == 2 * wavelengths@.len(),
            r.timeout_deadline_ms == (match timeout_ms {
                Some(t) => Some((now_ms + t) as u64),
                None => None::<u64>,
            }),
            !r.timed_out,
            r.left_ir is None && r.left_rgb is None && r.right_ir is None && r.right_rgb is None,
            r.self_custody_candidate_rgb is None,
            r.max_sharpness_milli == 0,
            r.mirror_offsets@ == Seq::<mirror::Point>::empty(),
    {
        let first_left = random_bool();
        let r = Plan::with_start_side(wavelengths, timeout_ms, now_ms, first_left);
        proof {
            assert(r.objectives@ == objectives_for(wavelengths@, first_left));
        }
        r
    }

    /// Whether the current objective is the session's last.
    pub fn is_last_objective(&self) -> (r: bool)
        ensures
            r == (self.objectives@.len() == 0),
    {
        self.objectives.len() == 0
    }

    /// Folds one GPS fix, in millionths of a degree, into the running
    /// averages.
    pub fn track_gps(&mut self, latitude_microdeg: i64, longitude_microdeg: i64)
        requires
            old(self).wf(),
            -90_000_000 <= latitude_microdeg <= 90_000_000,
            -180_000_000 <= longitude_microdeg <= 180_000_000,
            old(self).gps_points < usize::MAX,
        ensures
            final(self).wf(),
            final(self).gps_points == old(self).gps_points + 1,
            final(self).latitude_microdeg matches Some(l) && l == avg_step(
                match old(self).latitude_microdeg {
                    Some(p) => p as int,
                    None => 0,
                },
                latitude_microdeg as int,
                old(self).gps_points + 1,
            ),
            final(self).longitude_microdeg matches Some(l) && l == avg_step(
                match old(self).longitude_microdeg {
                    Some(p) => p as int,
                    None => 0,
                },
                longitude_microdeg as int,
                old(self).gps_points + 1,
            ),
            *final(self) == (Plan {
                gps_points: final(self).gps_points,
                latitude_microdeg: final(self).latitude_microdeg,
                longitude_microdeg: final(self).longitude_microdeg,
                ..*old(self)
            }),
    {
        let prev_latitude: i64 = match self.latitude_microdeg {
            Some(l) => l,
            None => 0,
        };
        let prev_longitude: i64 = match self.longitude_microdeg {
            Some(l) => l,
            None => 0,
        };
        self.gps_points = self.gps_points + 1;
        let n = self.gps_points;
        proof {
            lemma_avg_step_bounds(prev_latitude as int, latitude_microdeg as int, n as int, 90_000_000);
            lemma_avg_step_bounds(
                prev_longitude as int,
                longitude_microdeg as int,
                n as int,
                180_000_000,
            );
        }
        self.latitude_microdeg = Some(avg_step_exec(prev_latitude, latitude_microdeg, n));
        self.longitude_microdeg = Some(avg_step_exec(prev_longitude, longitude_microdeg, n));
    }
}

/// The occlusion reading the filter is actually fed: a reading the model
/// could not produce, or one taken from a blurry image, is replaced by a
/// safely-above-threshold value.
pub open spec fn occlusion_input_milli(est: ir_net::EstimateOutput) -> i64 {
    if est.occlusion_30_milli is None || est.sharpness_milli is None || est.sharpness_milli->0
        < IRIS_SHARPNESS_MIN_MILLI {
        (THRESHOLD_OCCLUSION_30_MILLI * 105 / 100) as i64
    } else {
        est.occlusion_30_milli->0
    }
}

/// The hysteresis rule of the occlusion indicator: it turns on when the
/// filtered value drops clearly below the threshold, and stays on while
/// the value is anywhere near it or the minimum pulse time has not passed.
pub open spec fn occlusion_detected(filtered: int, on_time: Option<u64>, now_ms: u64) -> bool {
    match on_time {
        Some(t) => filtered < THRESHOLD_OCCLUSION_30_MILLI * 1025 / 1000 || now_ms < t
            + OCCLUSION_INDICATOR_MIN_TIME_INTERVAL_MS,
        None => filtered < THRESHOLD_OCCLUSION_30_MILLI * 975 / 1000,
    }
}

/// Once asserted, the occlusion indicator remains asserted for at least the
/// minimum pulse time, regardless of how the filtered value fluctuates.
pub proof fn lemma_occlusion_min_pulse(filtered: int, on_since: u64, now_ms: u64)
    requires
        on_since <= now_ms,
        now_ms < on_since + OCCLUSION_INDICATOR_MIN_TIME_INTERVAL_MS,
    ensures
        occlusion_detected(filtered, Some(on_since), now_ms),
{
}

/// Over any run of samples taken while the minimum pulse time has not yet
/// passed, the indicator reports occlusion at every one of them, however
/// the filtered value fluctuates.
pub proof fn lemma_occlusion_pulse_holds(
    on_since: u64,
    times: Seq<u64>,
    filtered: Seq<int>,
)
    requires
        times.len() == filtered.len(),
        forall|i: int|
            0 <= i < times.len() ==> on_since <= #[trigger] times[i] < on_since
                + OCCLUSION_INDICATOR_MIN_TIME_INTERVAL_MS,
    ensures
        forall|i: int|
            0 <= i < times.len() ==> occlusion_detected(
                #[trigger] filtered[i],
                Some(on_since),
                times[i],
            ),
{
    assert forall|i: int| 0 <= i < times.len() implies occlusion_detected(
        #[trigger] filtered[i],
        Some(on_since),
        times[i],
    ) by {
        lemma_occlusion_min_pulse(filtered[i], on_since, times[i]);
    }
}

/// The UX progress value, in thousandths of the full bar: the share of
/// finished objectives plus the sharpness-driven share of the current one,
/// scaled into the objectives' part of the bar, plus the face milestone.
pub open spec fn spec_progress_milli(
    max_sharpness_milli: i64,
    objectives_left: int,
    total_objectives: int,
    face_found: bool,
) -> int {
    let ratio = max_sharpness_milli * 1000 / (IRIS_SCORE_MIN_MILLI as int);
    let curr = if ratio > 1000 {
        1000int
    } else {
        ratio
    };
    let idx = total_objectives - objectives_left - 1;
    let total_pm = (idx * 1000 + curr) / total_objectives;
    total_pm * (MAX_PROGRESS_MILLI - FACE_IDENTIFIED_PROGRESS_MILLI) / 1000 + (if face_found {
        FACE_IDENTIFIED_PROGRESS_MILLI as int
    } else {
        0
    })
}

/// The LED events one UX update emits: the milestone pattern, if its
/// condition holds, then the progress value.
pub open spec fn ux_led_events(
    max_sharpness_milli: i64,
    objectives_left: int,
    total_objectives: int,
    face_found: bool,
) -> Seq<crate::led::Event> {
    (if objectives_left <= total_objectives / 2 {
        seq![crate::led::Event::BiometricCaptureHalfObjectivesCompleted]
    } else if objectives_left == 0 {
        seq![crate::led::Event::BiometricCaptureAllObjectivesCompleted]
    } else {
        Seq::<crate::led::Event>::empty()
    }).push(
        crate::led::Event::BiometricCaptureProgress(
            spec_progress_milli(
                max_sharpness_milli,
                objectives_left,
                total_objectives,
                face_found,
            ) as i64,
        ),
    )
}

/// One step of the running average: the previous value moved towards the
/// new sample by a 1/n share, rounded towards the previous value.
pub open spec fn avg_step(prev: int, sample: int, n: int) -> int {
    if sample >= prev {
        prev + (sample - prev) / n
    } else {
        prev - (prev - sample) / n
    }
}

/// An averaging step stays between the previous value and the sample.
proof fn lemma_avg_step_bounds(prev: int, sample: int, n: int, limit: int)
    requires
        n >= 1,
        -limit <= prev <= limit,
        -limit <= sample <= limit,
    ensures
        -limit <= avg_step(prev, sample, n) <= limit,
        if sample >= prev {
            prev <= avg_step(prev, sample, n) <= sample
        } else {
            sample <= avg_step(prev, sample, n) <= prev
        },
{
    let d: int = if sample >= prev {
        sample - prev
    } else {
        prev - sample
    };
    assert(d * 1 <= d * n) by (nonlinear_arith)
        requires
            d >= 0,
            n >= 1,
    ;
    assert(d * n == n * d) by (nonlinear_arith);
    vstd::arithmetic::div_mod::lemma_div_pos_is_pos(d, n);
    vstd::arithmetic::div_mod::lemma_div_is_ordered(d * 1, d * n, n);
    vstd::arithmetic::div_mod::lemma_div_multiples_vanish(d, n);
    assert(d / n <= d);
}

/// Executable averaging step, exact per `avg_step`.
fn avg_step_exec(prev: i64, sample: i64, n: usize) -> (r: i64)
    requires
        n >= 1,
        -1_000_000_000 <= prev <= 1_000_000_000,
        -1_000_000_000 <= sample <= 1_000_000_000,
    ensures
        r == avg_step(prev as int, sample as int, n as int),
{
    proof {
        lemma_avg_step_bounds(prev as int, sample as int, n as int, 1_000_000_000);
    }
    if sample >= prev {
        let d: u64 = (sample - prev) as u64;
        let q: u64 = d / (n as u64);
        prev + q as i64
    } else {
        let d: u64 = (prev - sample) as u64;
        let q: u64 = d / (n as u64);
        prev - q as i64
    }
}

impl Plan {
    /// Feeds one estimate into the occlusion filter and drives the LED
    /// indicator through the hysteresis rule.
    fn update_occlusion(&mut self, orb: &mut Orb, estimate: &ir_net::EstimateOutput, now_ms: u64)
        requires
            old(self).wf(),
            old(orb).wf(),
            old(self).clock_ok(now_ms),
            valid_estimate(*estimate),
        ensures
            final(self).wf(),
            final(orb).wf(),
            final(self).clock_ok(now_ms),
            ({
                let input = occlusion_input_milli(*estimate);
                let dt = match old(self).occlusion_timer_last_ms {
                    Some(t) => (now_ms - t) as u64,
                    None => 0u64,
                };
                let filt = lpf_next(
                    old(self).occlusion_30_filter.state_milli,
                    input,
                    dt,
                    OCCLUSION_LOW_PASS_FILTER_RC_MS,
                );
                let detected = occlusion_detected(
                    filt,
                    old(self).occlusion_indicator_on_time_ms,
                    now_ms,
                );
                &&& final(self).occlusion_30_filter.state_milli matches Some(f) && f == filt
                &&& final(self).occlusion_timer_last_ms == Some(now_ms)
                &&& (detected ==> final(self).occlusion_indicator_on_time_ms == Some(
                    match old(self).occlusion_indicator_on_time_ms {
                        Some(t) => t,
                        None => now_ms,
                    },
                ))
                &&& (!detected ==> final(self).occlusion_indicator_on_time_ms is None)
                &&& final(orb).led_log@ == old(orb).led_log@.push(
                    led::Event::BiometricCaptureOcclusion(detected),
                )
            }),
            *final(self) == (Plan {
                occlusion_30_filter: final(self).occlusion_30_filter,
                occlusion_timer_last_ms: final(self).occlusion_timer_last_ms,
                occlusion_indicator_on_time_ms: final(self).occlusion_indicator_on_time_ms,
                ..*old(self)
            }),
            *final(orb) == (Orb { led_log: final(orb).led_log, ..*old(orb) }),
    {
        let dt: u64 = match self.occlusion_timer_last_ms {
            Some(t) => now_ms - t,
            None => 0,
        };
        self.occlusion_timer_last_ms = Some(now_ms);
        let distrusted: bool = match (estimate.occlusion_30_milli, estimate.sharpness_milli) {
            (Some(_), Some(s)) => s < IRIS_SHARPNESS_MIN_MILLI,
            _ => true,
        };
        let occlusion_30: i64 = if distrusted {
            THRESHOLD_OCCLUSION_30_MILLI * 105 / 100
        } else {
            match estimate.occlusion_30_milli {
                Some(o) => o,
                None => 0,
            }
        };
        let filtered = self.occlusion_30_filter.add(
            occlusion_30,
            dt,
            OCCLUSION_LOW_PASS_FILTER_RC_MS,
        );
        let detected: bool = match self.occlusion_indicator_on_time_ms {
            Some(t) => filtered < THRESHOLD_OCCLUSION_30_MILLI * 1025 / 1000 || now_ms - t
                < OCCLUSION_INDICATOR_MIN_TIME_INTERVAL_MS,
            None => filtered < THRESHOLD_OCCLUSION_30_MILLI * 975 / 1000,
        };
        if detected {
            if self.occlusion_indicator_on_time_ms.is_none() {
                self.occlusion_indicator_on_time_ms = Some(now_ms);
            }
            orb.led_log.push(led::Event::BiometricCaptureOcclusion(true));
        } else {
            orb.led_log.push(led::Event::BiometricCaptureOcclusion(false));
            self.occlusion_indicator_on_time_ms = None;
        }
    }

    /// Folds one sharpness reading into the per-objective maximum and
    /// reports progress to the LED engine. The maximum never decreases
    /// within an objective.
    #[verifier::rlimit(50)]
    fn update_ux(&mut self, orb: &mut Orb, sharpness_milli: Option<i64>)
        requires
            old(self).wf(),
            old(orb).wf(),
            old(self).objectives@.len() < old(self).total_objectives,
            sharpness_milli matches Some(s) ==> valid_milli(s),
        ensures
            final(self).wf(),
            final(orb).wf(),
            final(self).max_sharpness_milli == (match sharpness_milli {
                Some(s) => if s > old(self).max_sharpness_milli {
                    s
                } else {
                    old(self).max_sharpness_milli
                },
                None => old(self).max_sharpness_milli,
            }),
            final(self).max_sharpness_milli >= old(self).max_sharpness_milli,
            final(orb).led_log@ == old(orb).led_log@ + ux_led_events(
                final(self).max_sharpness_milli,
                old(self).objectives@.len() as int,
                old(self).total_objectives as int,
                old(self).self_custody_candidate_rgb is Some,
            ),
            *final(self) == (Plan {
                max_sharpness_milli: final(self).max_sharpness_milli,
                ..*old(self)
            }),
            *final(orb) == (Orb { led_log: final(orb).led_log, ..*old(orb) }),
    {
        match sharpness_milli {
            Some(s) => {
                if s > self.max_sharpness_milli {
                    self.max_sharpness_milli = s;
                }
            },
            None => (),
        }
        let left = self.objectives.len();
        let total = self.total_objectives;
        if left <= total / 2 {
            orb.led_log.push(led::Event::BiometricCaptureHalfObjectivesCompleted);
        } else if left == 0 {
            orb.led_log.push(led::Event::BiometricCaptureAllObjectivesCompleted);
        }
        let ratio: i64 = self.max_sharpness_milli * 1000 / IRIS_SCORE_MIN_MILLI;
        let curr: i64 = if ratio > 1000 {
            1000
        } else {
            ratio
        };
        let idx: i64 = (total - left - 1) as i64;
        let total_pm: i64 = (idx * 1000 + curr) / (total as i64);
        let face_found = self.self_custody_candidate_rgb.is_some();
        let progress: i64 = total_pm * (MAX_PROGRESS_MILLI - FACE_IDENTIFIED_PROGRESS_MILLI)
            / 1000 + (if face_found {
            FACE_IDENTIFIED_PROGRESS_MILLI
        } else {
            0
        });
        proof {
            assert(progress == spec_progress_milli(
                self.max_sharpness_milli,
                left as int,
                total as int,
                face_found,
            ));
        }
        orb.led_log.push(led::Event::BiometricCaptureProgress(progress));
        proof {
            assert(final(orb).led_log@ =~= old(orb).led_log@ + ux_led_events(
                final(self).max_sharpness_milli,
                old(self).objectives@.len() as int,
                old(self).total_objectives as int,
                old(self).self_custody_candidate_rgb is Some,
            ));
        }
    }

    /// Pops and applies the next objective: resets the per-objective
    /// sharpness maximum, retargets the eye, selects wavelength and
    /// duration, and sets the color-frame routing. Returns whether an
    /// objective was left.
    pub fn set_next_objective(&mut self, orb: &mut Orb) -> (r: bool)
        requires
            old(self).wf(),
            old(orb).wf(),
        ensures
            final(self).wf(),
            final(orb).wf(),
            r == (old(self).objectives@.len() > 0),
            !r ==> final(self).objectives@ == old(self).objectives@ && *final(self) == (Plan {
                objectives: final(self).objectives,
                ..*old(self)
            }) && *final(orb) == *old(orb),
            r ==> ({
                let obj = old(self).objectives@[0];
                &&& final(self).objectives@ == old(self).objectives@.drop_first()
                &&& final(self).max_sharpness_milli == 0
                &&& final(self).target_left_eye == obj.target_left_eye
                &&& *final(self) == (Plan {
                    objectives: final(self).objectives,
                    max_sharpness_milli: 0,
                    target_left_eye: obj.target_left_eye,
                    ..*old(self)
                })
                &&& final(orb).target_left_eye == obj.target_left_eye
                &&& final(orb).ir_led_wavelength == obj.ir_led_wavelength
                &&& final(orb).ir_led_duration == obj.ir_led_duration
                &&& final(orb).only_rgb_net_frames == obj.only_rgb_net_frames
                &&& final(orb).main_mcu.sent@ == old(orb).main_mcu.sent@.push(
                    crate::mcu::Input::IrLed(obj.ir_led_wavelength),
                ).push(crate::orb::spec_duration_cmd(obj.ir_led_wavelength, obj.ir_led_duration))
                &&& final(orb).main_mcu.log_mark == old(orb).main_mcu.log_mark
                &&& (old(orb).eye_pid_controller.enabled ==> final(orb).eye_pid_controller.inbox@ == old(orb).eye_pid_controller.inbox@.push(
                    crate::agents::EyePidInput::SwitchEye,
                ))
                &&& (!old(orb).eye_pid_controller.enabled ==> final(orb).eye_pid_controller
                    == old(orb).eye_pid_controller)
                &&& (old(orb).ir_auto_exposure.enabled ==> final(orb).ir_auto_exposure.inbox@ == old(orb).ir_auto_exposure.inbox@.push(
                    crate::agents::AutoExposureInput::SetExposureRange(
                        crate::orb::spec_exposure_range(obj.ir_led_wavelength).0,
                        crate::orb::spec_exposure_range(obj.ir_led_wavelength).1,
                    ),
                ))
                &&& (!old(orb).ir_auto_exposure.enabled ==> final(orb).ir_auto_exposure == old(
                    orb,
                ).ir_auto_exposure)
                &&& *final(orb) == (Orb {
                    target_left_eye: obj.target_left_eye,
                    ir_led_wavelength: obj.ir_led_wavelength,
                    ir_led_duration: obj.ir_led_duration,
                    only_rgb_net_frames: obj.only_rgb_net_frames,
                    main_mcu: final(orb).main_mcu,
                    eye_pid_controller: final(orb).eye_pid_controller,
                    ir_auto_exposure: final(orb).ir_auto_exposure,
                    ..*old(orb)
                })
            }),
    {
        match self.objectives.pop_front() {
            Some(objective) => {
                self.max_sharpness_milli = 0;
                self.target_left_eye = objective.target_left_eye;
                orb.set_target_left_eye(objective.target_left_eye);
                orb.set_ir_wavelength(objective.ir_led_wavelength);
                orb.set_ir_duration(objective.ir_led_duration);
                orb.only_rgb_net_frames = objective.only_rgb_net_frames;
                true
            },
            None => false,
        }
    }
}

/// The score of the self-custody candidate held so far, or zero.
pub open spec fn best_score_spec(p: Plan) -> i64 {
    match p.self_custody_candidate_rgb {
        Some(fi) => match fi.estimate.score_milli {
            Some(s) => s,
            None => 0,
        },
        None => 0,
    }
}

/// Whether the currently targeted eye holds both its IR and its RGB frame.
pub open spec fn objective_complete(p: Plan) -> bool {
    if p.target_left_eye {
        p.left_rgb is Some && p.left_ir is Some
    } else {
        p.right_rgb is Some && p.right_ir is Some
    }
}

impl Plan {
    /// Handles one iris-model output. An estimate first drives the
    /// occlusion indicator; a frame whose perceived side does not match the
    /// objective is skipped without touching the slots; otherwise progress
    /// is reported and the frame is accepted into the targeted eye's slot
    /// exactly when it passes the acceptance gate. Version reports are
    /// ignored; model failures are absorbed and counted.
    pub fn handle_ir_net(
        &mut self,
        orb: &mut Orb,
        output: &ir_net::Output,
        frame: Option<IrFrame>,
        now_ms: u64,
    ) -> (flow: BrokerFlow)
        requires
            old(self).wf(),
            old(orb).wf(),
            old(self).clock_ok(now_ms),
            *output matches ir_net::Output::Estimate(e) ==> frame is Some && valid_estimate(e)
                && old(self).objectives@.len() < old(self).total_objectives,
        ensures
            flow == BrokerFlow::Continue,
            final(self).wf(),
            final(orb).wf(),
            final(self).clock_ok(now_ms),
            match *output {
                ir_net::Output::Estimate(est) => ({
                    let f = frame->0;
                    let input = occlusion_input_milli(est);
                    let dt = match old(self).occlusion_timer_last_ms {
                        Some(t) => (now_ms - t) as u64,
                        None => 0u64,
                    };
                    let filt = lpf_next(
                        old(self).occlusion_30_filter.state_milli,
                        input,
                        dt,
                        OCCLUSION_LOW_PASS_FILTER_RC_MS,
                    );
                    let detected = occlusion_detected(
                        filt,
                        old(self).occlusion_indicator_on_time_ms,
                        now_ms,
                    );
                    let side_ok = est.perceived_side == Some(
                        expected_side(old(self).target_left_eye),
                    );
                    let accept = side_ok && ir_accepts(
                        est,
                        f,
                        old(orb).ir_auto_exposure.enabled,
                    );
                    &&& (final(self).occlusion_30_filter.state_milli matches Some(v) && v == filt)
                    &&& final(self).occlusion_timer_last_ms == Some(now_ms)
                    &&& (detected ==> final(self).occlusion_indicator_on_time_ms == Some(
                        match old(self).occlusion_indicator_on_time_ms {
                            Some(t) => t,
                            None => now_ms,
                        },
                    ))
                    &&& (!detected ==> final(self).occlusion_indicator_on_time_ms is None)
                    &&& (!side_ok ==> {
                        &&& final(self).max_sharpness_milli == old(self).max_sharpness_milli
                        &&& final(self).left_ir == old(self).left_ir
                        &&& final(self).right_ir == old(self).right_ir
                        &&& final(orb).led_log@ == old(orb).led_log@.push(
                            led::Event::BiometricCaptureOcclusion(detected),
                        )
                        &&& final(orb).telemetry@ == old(orb).telemetry@
                    })
                    &&& (side_ok ==> {
                        let new_max = match est.sharpness_milli {
                            Some(s) => if s > old(self).max_sharpness_milli {
                                s
                            } else {
                                old(self).max_sharpness_milli
                            },
                            None => old(self).max_sharpness_milli,
                        };
                        &&& final(self).max_sharpness_milli == new_max
                        &&& final(orb).led_log@ == old(orb).led_log@.push(
                            led::Event::BiometricCaptureOcclusion(detected),
                        ) + ux_led_events(
                            new_max,
                            old(self).objectives@.len() as int,
                            old(self).total_objectives as int,
                            old(self).self_custody_candidate_rgb is Some,
                        )
                        &&& (accept && old(self).target_left_eye ==> (final(self).left_ir matches Some(fi) && fi.estimate == est && fi.frame == f) && final(self).right_ir == old(self).right_ir)
                        &&& (accept && !old(self).target_left_eye ==> (final(self).right_ir matches Some(fi) && fi.estimate == est && fi.frame == f)
                            && final(self).left_ir == old(self).left_ir)
                        &&& (accept ==> {
                            let was_empty = if old(self).target_left_eye {
                                old(self).left_ir is None
                            } else {
                                old(self).right_ir is None
                            };
                            &&& (was_empty ==> final(orb).telemetry@ == old(
                                orb,
                            ).telemetry@.push(
                                Telemetry::FirstSharpIrisDetected {
                                    left: old(self).target_left_eye,
                                },
                            ))
                            &&& (!was_empty ==> final(orb).telemetry@ == old(orb).telemetry@)
                        })
                        &&& (!accept ==> final(self).left_ir == old(self).left_ir && final(self).right_ir == old(self).right_ir && final(orb).telemetry@ == old(
                            orb,
                        ).telemetry@)
                    })
                    &&& final(self).max_sharpness_milli >= old(self).max_sharpness_milli
                    &&& *final(self) == (Plan {
                        occlusion_30_filter: final(self).occlusion_30_filter,
                        occlusion_timer_last_ms: final(self).occlusion_timer_last_ms,
                        occlusion_indicator_on_time_ms: final(self).occlusion_indicator_on_time_ms,
                        max_sharpness_milli: final(self).max_sharpness_milli,
                        left_ir: final(self).left_ir,
                        right_ir: final(self).right_ir,
                        ..*old(self)
                    })
                    &&& *final(orb) == (Orb {
                        led_log: final(orb).led_log,
                        telemetry: final(orb).telemetry,
                        ..*old(orb)
                    })
                }),
                ir_net::Output::Version(_) => *final(self) == *old(self) && *final(orb) == *old(
                    orb,
                ),
                ir_net::Output::Error => {
                    &&& final(self).model_errors == crate::orb::bump(old(self).model_errors)
                    &&& *final(self) == (Plan {
                        model_errors: final(self).model_errors,
                        ..*old(self)
                    })
                    &&& *final(orb) == *old(orb)
                },
            },
    {
        match *output {
            ir_net::Output::Estimate(est) => {
                self.update_occlusion(orb, &est, now_ms);
                let expected: i64 = if self.target_left_eye {
                    1
                } else {
                    0
                };
                let side_ok: bool = match est.perceived_side {
                    Some(p) => p == expected,
                    None => false,
                };
                if !side_ok {
                    return BrokerFlow::Continue;
                }
                self.update_ux(orb, est.sharpness_milli);
                let f = match frame {
                    Some(f) => f,
                    None => {
                        proof {
                            assert(false);
                        }
                        IrFrame { source_ts: 0, mean_milli: 0 }
                    },
                };
                let mean = f.mean();
                let accept: bool = est.score_milli >= IRIS_SCORE_MIN_MILLI && (
                !orb.ir_auto_exposure.is_enabled() || (IRIS_BRIGHTNESS_RANGE_MIN_MILLI <= mean
                    && mean < IRIS_BRIGHTNESS_RANGE_MAX_MILLI));
                if accept {
                    if self.target_left_eye {
                        if self.left_ir.is_none() {
                            orb.telemetry.push(Telemetry::FirstSharpIrisDetected { left: true });
                        }
                        self.left_ir = Some(FrameInfo { estimate: est, frame: f });
                    } else {
                        if self.right_ir.is_none() {
                            orb.telemetry.push(Telemetry::FirstSharpIrisDetected { left: false });
                        }
                        self.right_ir = Some(FrameInfo { estimate: est, frame: f });
                    }
                }
                BrokerFlow::Continue
            },
            ir_net::Output::Version(_) => BrokerFlow::Continue,
            ir_net::Output::Error => {
                if self.model_errors != u64::MAX {
                    self.model_errors = self.model_errors + 1;
                }
                BrokerFlow::Continue
            },
        }
    }

    /// Handles one landmark-model output: the frame is accepted into the
    /// targeted eye's RGB slot exactly when a primary prediction exists and
    /// its bounding box is well-formed. There is no score gate here.
    pub fn handle_rgb_net(
        &mut self,
        orb: &mut Orb,
        output: &rgb_net::Output,
        frame: Option<RgbFrame>,
    ) -> (flow: BrokerFlow)
        requires
            old(self).wf(),
            (*output matches rgb_net::Output::Estimate(e) && (e.primary matches Some(p)
                && p.bbox.spec_is_correct())) ==> frame is Some,
        ensures
            flow == BrokerFlow::Continue,
            final(self).wf(),
            *final(orb) == *old(orb),
            match *output {
                rgb_net::Output::Estimate(est) => ({
                    let accept = est.primary matches Some(p) && p.bbox.spec_is_correct();
                    &&& (accept && old(self).target_left_eye ==> (final(self).left_rgb matches Some(fi) && fi.estimate == est && fi.frame == frame->0)
                        && final(self).right_rgb == old(self).right_rgb)
                    &&& (accept && !old(self).target_left_eye ==> (final(self).right_rgb matches Some(fi) && fi.estimate == est && fi.frame == frame->0)
                        && final(self).left_rgb == old(self).left_rgb)
                    &&& (!accept ==> *final(self) == *old(self))
                    &&& *final(self) == (Plan {
                        left_rgb: final(self).left_rgb,
                        right_rgb: final(self).right_rgb,
                        ..*old(self)
                    })
                }),
                rgb_net::Output::InitUndistort => *final(self) == *old(self),
            },
    {
        match *output {
            rgb_net::Output::Estimate(est) => {
                match est.primary() {
                    Some(prediction) => {
                        if prediction.bbox.is_correct() {
                            let f = match frame {
                                Some(f) => f,
                                None => {
                                    proof {
                                        assert(false);
                                    }
                                    RgbFrame { source_ts: 0 }
                                },
                            };
                            if self.target_left_eye {
                                self.left_rgb = Some(FrameInfo { estimate: est, frame: f });
                            } else {
                                self.right_rgb = Some(FrameInfo { estimate: est, frame: f });
                            }
                        }
                    },
                    None => (),
                }
                BrokerFlow::Continue
            },
            rgb_net::Output::InitUndistort => BrokerFlow::Continue,
        }
    }

    /// Handles one face-validity verdict. A valid frame whose score beats
    /// the stored candidate becomes the new candidate, and on any valid
    /// frame the color pipeline returns to landmark-only requests: the
    /// session no longer needs the fused pass.
    pub fn handle_face_identifier(
        &mut self,
        orb: &mut Orb,
        output: &face_identifier::Output,
        frame: Option<RgbFrame>,
    ) -> (flow: BrokerFlow)
        requires
            old(self).wf(),
            old(orb).wf(),
            match *output {
                face_identifier::Output::IsValidImage(o) => (o.is_valid == Some(true) && (
                match o.score_milli {
                    Some(s) => s > best_score_spec(*old(self)),
                    None => false,
                })) ==> frame is Some,
            },
        ensures
            flow == BrokerFlow::Continue,
            final(self).wf(),
            final(orb).wf(),
            match *output {
                face_identifier::Output::IsValidImage(o) => ({
                    let better = o.is_valid == Some(true) && (match o.score_milli {
                        Some(s) => s > best_score_spec(*old(self)),
                        None => false,
                    });
                    &&& final(self).model_errors == (if o.error is Some {
                        crate::orb::bump(old(self).model_errors)
                    } else {
                        old(self).model_errors
                    })
                    &&& (better ==> (final(self).self_custody_candidate_rgb matches Some(fi)
                        && fi.estimate == o && fi.frame == frame->0))
                    &&& (!better ==> final(self).self_custody_candidate_rgb == old(
                        self,
                    ).self_custody_candidate_rgb)
                    &&& (o.is_valid == Some(true) ==> *final(orb) == (Orb {
                        only_rgb_net_frames: true,
                        ..*old(orb)
                    }))
                    &&& (o.is_valid != Some(true) ==> *final(orb) == *old(orb))
                    &&& *final(self) == (Plan {
                        self_custody_candidate_rgb: final(self).self_custody_candidate_rgb,
                        model_errors: final(self).model_errors,
                        ..*old(self)
                    })
                }),
            },
    {
        match output {
            face_identifier::Output::IsValidImage(o) => {
                if o.error.is_some() {
                    if self.model_errors != u64::MAX {
                        self.model_errors = self.model_errors + 1;
                    }
                }
                let valid: bool = match o.is_valid {
                    Some(v) => v,
                    None => false,
                };
                if valid {
                    let highest: i64 = match &self.self_custody_candidate_rgb {
                        Some(fi) => match fi.estimate.score_milli {
                            Some(s) => s,
                            None => 0,
                        },
                        None => 0,
                    };
                    let better: bool = match o.score_milli {
                        Some(s) => s > highest,
                        None => false,
                    };
                    if better {
                        let f = match frame {
                            Some(f) => f,
                            None => {
                                proof {
                                    assert(false);
                                }
                                RgbFrame { source_ts: 0 }
                            },
                        };
                        self.self_custody_candidate_rgb = Some(
                            FrameInfo { estimate: *o, frame: f },
                        );
                    }
                    orb.only_rgb_net_frames = true;
                }
                BrokerFlow::Continue
            },
        }
    }

    /// The between-events check: breaks the broker loop once the targeted
    /// eye is complete — on the last objective only once the self-custody
    /// candidate exists too — and on session timeout.
    pub fn poll_extra(&mut self, now_ms: u64) -> (flow: BrokerFlow)
        requires
            old(self).wf(),
        ensures
            final(self).wf(),
            ({
                let complete = objective_complete(*old(self));
                let break_on_progress = complete && (old(self).objectives@.len() > 0 || old(
                    self,
                ).self_custody_candidate_rgb is Some);
                let times_out = match old(self).timeout_deadline_ms {
                    Some(d) => now_ms >= d,
                    None => false,
                };
                &&& (break_on_progress ==> flow == BrokerFlow::Break && *final(self) == *old(
                    self,
                ))
                &&& (!break_on_progress && times_out ==> flow == BrokerFlow::Break && *final(self) == (Plan { timed_out: true, ..*old(self) }))
                &&& (!break_on_progress && !times_out ==> flow == BrokerFlow::Continue && *final(self) == *old(self))
            }),
    {
        let complete: bool = if self.target_left_eye {
            self.left_rgb.is_some() && self.left_ir.is_some()
        } else {
            self.right_rgb.is_some() && self.right_ir.is_some()
        };
        if complete {
            if self.objectives.len() > 0 {
                return BrokerFlow::Break;
            }
            if self.self_custody_candidate_rgb.is_some() {
                return BrokerFlow::Break;
            }
        }
        let times_out: bool = match self.timeout_deadline_ms {
            Some(d) => now_ms >= d,
            None => false,
        };
        if times_out {
            self.timed_out = true;
            return BrokerFlow::Break;
        }
        BrokerFlow::Continue
    }
}

/// Whether the facade is idle enough for a capture session to start: none
/// of the session's agents is already running.
pub open spec fn ready_for_session(o: Orb) -> bool {
    &&& !o.ir_eye_camera.enabled
    &&& !o.ir_face_camera.enabled
    &&& !o.rgb_camera.enabled
    &&& !o.thermal_camera.enabled
    &&& !o.ir_auto_focus.enabled
    &&& !o.ir_auto_exposure.enabled
    &&& !o.eye_tracker.enabled
    &&& !o.eye_pid_controller.enabled
    &&& !o.mirror.enabled
    &&& !o.distance.enabled
}

/// Whether everything the session enabled is off again: the models are
/// unfed (their warm hosts may keep running), and every session agent is
/// torn down.
pub open spec fn session_agents_disabled(o: Orb) -> bool {
    &&& !o.ir_net_enabled
    &&& !o.rgb_net_enabled
    &&& !o.ir_auto_exposure.enabled
    &&& !o.eye_tracker.enabled
    &&& !o.ir_auto_focus.enabled
    &&& !o.distance.enabled
    &&& !o.thermal_camera.enabled
    &&& !o.rgb_camera.enabled
    &&& !o.eye_pid_controller.enabled
    &&& !o.ir_eye_camera.enabled
    &&& !o.ir_face_camera.enabled
    &&& !o.mirror.enabled
}

/// Whether every slot a successful capture needs is populated.
pub open spec fn capture_complete(p: Plan) -> bool {
    &&& p.left_ir is Some
    &&& p.left_rgb is Some
    &&& p.right_ir is Some
    &&& p.right_rgb is Some
    &&& p.self_custody_candidate_rgb is Some
}

impl Plan {
    /// Brings the facade up for the session: models on, cameras running,
    /// the auxiliary agents enabled with their parameters, the MCU log
    /// started, the first objective applied, and the occlusion filter
    /// primed clearly above threshold so the indicator starts clear.
    pub fn run_pre(&mut self, orb: &mut Orb)
        requires
            old(self).wf(),
            old(orb).wf(),
            old(self).objectives@.len() >= 1,
            ready_for_session(*old(orb)),
        ensures
            final(self).wf(),
            final(orb).wf(),
            final(orb).ir_net_enabled && final(orb).mega_agent_one.enabled,
            final(orb).rgb_net_enabled && final(orb).mega_agent_two.enabled,
            final(orb).ir_eye_camera.enabled,
            final(orb).ir_face_camera.enabled,
            final(orb).rgb_camera.enabled,
            final(orb).thermal_camera.enabled == old(orb).config.thermal_camera,
            final(orb).mirror.enabled,
            final(orb).distance.enabled,
            final(orb).ir_auto_focus.enabled,
            final(orb).ir_auto_focus_use_rgb_net_estimate,
            final(orb).eye_tracker.enabled,
            final(orb).eye_pid_controller.enabled,
            final(orb).ir_auto_exposure.enabled,
            final(orb).main_mcu.log_mark is Some,
            ({
                let obj = old(self).objectives@[0];
                &&& final(self).objectives@ == old(self).objectives@.drop_first()
                &&& final(self).max_sharpness_milli == 0
                &&& final(self).target_left_eye == obj.target_left_eye
                &&& final(orb).target_left_eye == obj.target_left_eye
                &&& final(orb).ir_led_wavelength == obj.ir_led_wavelength
                &&& final(orb).ir_led_duration == obj.ir_led_duration
                &&& final(orb).only_rgb_net_frames == obj.only_rgb_net_frames
            }),
            final(self).occlusion_30_filter.state_milli == Some(
                (THRESHOLD_OCCLUSION_30_MILLI * 3 / 2) as i64,
            ),
            *final(self) == (Plan {
                objectives: final(self).objectives,
                max_sharpness_milli: 0,
                target_left_eye: final(self).target_left_eye,
                occlusion_30_filter: final(self).occlusion_30_filter,
                ..*old(self)
            }),
            final(orb).calibration == old(orb).calibration,
            final(orb).ir_net_frames@ == old(orb).ir_net_frames@,
            final(orb).rgb_net_frames@ == old(orb).rgb_net_frames@,
    {
        orb.main_mcu.log_start();
        orb.enable_ir_net();
        // Forward RGB frames to both the landmark and the face-validity
        // models until the self-custody candidate is found.
        orb.enable_rgb_net(false);
        orb.start_ir_eye_camera();
        orb.start_ir_face_camera();
        orb.start_rgb_camera();
        if orb.config.thermal_camera {
            orb.start_thermal_camera();
        }
        orb.mirror.enable();
        orb.distance.enable();
        orb.start_ir_auto_focus(MIN_SHARPNESS_MILLI, true);
        orb.eye_tracker.enable();
        orb.eye_pid_controller.enable();
        orb.start_ir_auto_exposure(IR_TARGET_MEAN_MILLI);
        orb.set_fisheye(RGB_REDUCED_WIDTH, RGB_REDUCED_HEIGHT, false);
        let advanced = self.set_next_objective(orb);
        proof {
            assert(advanced);
        }
        // Start with the filter clearly above threshold, so the indicator
        // begins in the clear state.
        self.occlusion_30_filter.reset();
        let seed: i64 = THRESHOLD_OCCLUSION_30_MILLI * 3 / 2;
        let _seeded = self.occlusion_30_filter.add(seed, 0, OCCLUSION_LOW_PASS_FILTER_RC_MS);
    }

    /// The between-breaks check: records the mirror offset for
    /// re-calibration, then reports whether the session is over — timed
    /// out, or out of objectives — advancing to the next objective
    /// otherwise. The objective queue never grows here.
    pub fn run_check(&mut self, orb: &mut Orb) -> (done: bool)
        requires
            old(self).wf(),
            old(orb).wf(),
            old(orb).mirror_offset is Some,
        ensures
            final(self).wf(),
            final(orb).wf(),
            final(self).objectives@.len() <= old(self).objectives@.len(),
            final(self).mirror_offsets@ == old(self).mirror_offsets@.push(
                old(orb).mirror_offset->0,
            ),
            old(self).timed_out ==> done && final(self).objectives@ == old(self).objectives@
                && *final(orb) == *old(orb),
            (!old(self).timed_out && old(self).objectives@.len() == 0) ==> done && final(orb).telemetry@ == old(orb).telemetry@.push(Telemetry::BothEyesCaptured) && *final(orb)
                == (Orb { telemetry: final(orb).telemetry, ..*old(orb) }),
            (!old(self).timed_out && old(self).objectives@.len() > 0) ==> ({
                let obj = old(self).objectives@[0];
                &&& !done
                &&& final(self).objectives@ == old(self).objectives@.drop_first()
                &&& final(self).max_sharpness_milli == 0
                &&& final(self).target_left_eye == obj.target_left_eye
                &&& final(orb).target_left_eye == obj.target_left_eye
                &&& final(orb).ir_led_wavelength == obj.ir_led_wavelength
                &&& final(orb).ir_led_duration == obj.ir_led_duration
                &&& final(orb).only_rgb_net_frames == obj.only_rgb_net_frames
                &&& final(orb).main_mcu.sent@ == old(orb).main_mcu.sent@.push(
                    crate::mcu::Input::IrLed(obj.ir_led_wavelength),
                ).push(crate::orb::spec_duration_cmd(obj.ir_led_wavelength, obj.ir_led_duration))
            }),
            *final(self) == (Plan {
                mirror_offsets: final(self).mirror_offsets,
                objectives: final(self).objectives,
                max_sharpness_milli: final(self).max_sharpness_milli,
                target_left_eye: final(self).target_left_eye,
                ..*old(self)
            }),
    {
        let offset = match orb.mirror_offset {
            Some(o) => o,
            None => {
                proof {
                    assert(false);
                }
                mirror::Point { horizontal: 0, vertical: 0 }
            },
        };
        self.mirror_offsets.push(offset);
        if self.timed_out {
            return true;
        }
        if !self.set_next_objective(orb) {
            orb.telemetry.push(Telemetry::BothEyesCaptured);
            return true;
        }
        false
    }

    /// Consumes the plan into the session's capture: present exactly when
    /// all four eye slots and the self-custody candidate are populated.
    pub fn into_capture(self) -> (r: Option<Capture>)
        ensures
            r is Some <==> capture_complete(self),
            r matches Some(c) ==> {
                &&& c.eye_left.ir_frame == self.left_ir->0.frame
                &&& c.eye_left.ir_net_estimate == self.left_ir->0.estimate
                &&& c.eye_left.ir_frame_940nm is None
                &&& c.eye_left.ir_frame_740nm is None
                &&& c.eye_left.rgb_frame == self.left_rgb->0.frame
                &&& c.eye_left.rgb_net_estimate == self.left_rgb->0.estimate
                &&& c.eye_right.ir_frame == self.right_ir->0.frame
                &&& c.eye_right.ir_net_estimate == self.right_ir->0.estimate
                &&& c.eye_right.ir_frame_940nm is None
                &&& c.eye_right.ir_frame_740nm is None
                &&& c.eye_right.rgb_frame == self.right_rgb->0.frame
                &&& c.eye_right.rgb_net_estimate == self.right_rgb->0.estimate
                &&& c.face_self_custody_candidate.rgb_frame == self.self_custody_candidate_rgb
                    ->0.frame
                &&& c.face_self_custody_candidate.rgb_net_eye_landmarks == self
                    .self_custody_candidate_rgb->0.estimate.rgb_net_eye_landmarks
                &&& c.face_self_custody_candidate.rgb_net_bbox == self.self_custody_candidate_rgb
                    ->0.estimate.rgb_net_bbox
                &&& c.latitude_microdeg == self.latitude_microdeg
                &&& c.longitude_microdeg == self.longitude_microdeg
            },
    {
        let left_ir = match self.left_ir {
            Some(fi) => fi,
            None => {
                return None;
            },
        };
        let left_rgb = match self.left_rgb {
            Some(fi) => fi,
            None => {
                return None;
            },
        };
        let right_ir = match self.right_ir {
            Some(fi) => fi,
            None => {
                return None;
            },
        };
        let right_rgb = match self.right_rgb {
            Some(fi) => fi,
            None => {
                return None;
            },
        };
        let face = match self.self_custody_candidate_rgb {
            Some(fi) => fi,
            None => {
                return None;
            },
        };
        let eye_left = EyeCapture {
            ir_frame: left_ir.frame,
            ir_frame_940nm: None,
            ir_frame_740nm: None,
            ir_net_estimate: left_ir.estimate,
            rgb_frame: left_rgb.frame,
            rgb_net_estimate: left_rgb.estimate,
        };
        let eye_right = EyeCapture {
            ir_frame: right_ir.frame,
            ir_frame_940nm: None,
            ir_frame_740nm: None,
            ir_net_estimate: right_ir.estimate,
            rgb_frame: right_rgb.frame,
            rgb_net_estimate: right_rgb.estimate,
        };
        Some(
            Capture {
                eye_left,
                eye_right,
                face_self_custody_candidate: SelfCustodyCandidate {
                    rgb_frame: face.frame,
                    rgb_net_eye_landmarks: face.estimate.rgb_net_eye_landmarks,
                    rgb_net_bbox: face.estimate.rgb_net_bbox,
                },
                latitude_microdeg: self.latitude_microdeg,
                longitude_microdeg: self.longitude_microdeg,
            },
        )
    }
}

/// Magnitude of an integer.
pub open spec fn spec_abs(x: int) -> int {
    if x >= 0 {
        x
    } else {
        -x
    }
}

/// An offset scaled by the calibration reducer, rounded towards zero.
pub open spec fn scale_reduced(x: int) -> int {
    if x >= 0 {
        x * CONTINUOUS_CALIBRATION_REDUCER_NUM / (CONTINUOUS_CALIBRATION_REDUCER_DEN as int)
    } else {
        -((-x) * CONTINUOUS_CALIBRATION_REDUCER_NUM / (CONTINUOUS_CALIBRATION_REDUCER_DEN as int))
    }
}

/// `h` and `v` witness a calibration blend over `samples`: each occurs in
/// some sample on its axis, each is of minimal magnitude on its axis, and
/// `post` is `pre` moved by their reduced values.
pub open spec fn blend_witness(
    samples: Seq<mirror::Point>,
    pre: Calibration,
    post: Calibration,
    h: i64,
    v: i64,
) -> bool {
    &&& exists|i: int| 0 <= i < samples.len() && (#[trigger] samples[i]).horizontal == h
    &&& exists|i: int| 0 <= i < samples.len() && (#[trigger] samples[i]).vertical == v
    &&& forall|i: int|
        0 <= i < samples.len() ==> spec_abs(h as int) <= spec_abs(
            (#[trigger] samples[i]).horizontal as int,
        )
    &&& forall|i: int|
        0 <= i < samples.len() ==> spec_abs(v as int) <= spec_abs(
            (#[trigger] samples[i]).vertical as int,
        )
    &&& post.mirror.horizontal_offset == pre.mirror.horizontal_offset + scale_reduced(h as int)
    &&& post.mirror.vertical_offset == pre.mirror.vertical_offset + scale_reduced(v as int)
}

/// The relation continuous re-calibration establishes between the samples
/// and the calibration before and after. The witnesses are chosen per axis
/// independently; a tie between equal magnitudes is broken arbitrarily.
pub open spec fn calibration_blend_rel(
    samples: Seq<mirror::Point>,
    pre: Calibration,
    post: Calibration,
) -> bool {
    exists|h: i64, v: i64| #[trigger] blend_witness(samples, pre, post, h, v)
}

/// A blend over samples that include a zero-magnitude offset is a no-op on
/// the stored calibration: the minimal magnitude on both axes is then zero,
/// and zero scaled by the reducer is zero.
pub proof fn lemma_zero_offset_sample_is_noop(
    samples: Seq<mirror::Point>,
    pre: Calibration,
    post: Calibration,
)
    requires
        calibration_blend_rel(samples, pre, post),
        exists|i: int|
            0 <= i < samples.len() && #[trigger] samples[i] == (mirror::Point {
                horizontal: 0,
                vertical: 0,
            }),
    ensures
        post == pre,
{
    let (h, v) = choose|h: i64, v: i64| blend_witness(samples, pre, post, h, v);
    let z = choose|i: int|
        0 <= i < samples.len() && #[trigger] samples[i] == (mirror::Point {
            horizontal: 0,
            vertical: 0,
        });
    assert(spec_abs(h as int) <= spec_abs(samples[z].horizontal as int));
    assert(spec_abs(v as int) <= spec_abs(samples[z].vertical as int));
    assert(h == 0);
    assert(v == 0);
    assert(scale_reduced(0) == 0);
    assert(post.mirror == pre.mirror);
}

/// The horizontal sample value of minimal magnitude; the first of equal
/// magnitudes wins.
fn min_abs_horizontal(offsets: &Vec<mirror::Point>) -> (h: i64)
    requires
        offsets@.len() >= 1,
        forall|i: int| 0 <= i < offsets@.len() ==> (#[trigger] offsets@[i]).in_range(),
    ensures
        exists|i: int| 0 <= i < offsets@.len() && (#[trigger] offsets@[i]).horizontal == h,
        forall|i: int|
            0 <= i < offsets@.len() ==> spec_abs(h as int) <= spec_abs(
                (#[trigger] offsets@[i]).horizontal as int,
            ),
        -1_000_000_000 <= h <= 1_000_000_000,
    {
    let mut best: i64 = offsets[0].horizontal;
    let mut i: usize = 1;
    while i < offsets.len()
        invariant
            1 <= i <= offsets@.len(),
            forall|j: int| 0 <= j < offsets@.len() ==> (#[trigger] offsets@[j]).in_range(),
            exists|j: int| 0 <= j < i && (#[trigger] offsets@[j]).horizontal == best,
            forall|j: int|
                0 <= j < i ==> spec_abs(best as int) <= spec_abs(
                    (#[trigger] offsets@[j]).horizontal as int,
                ),
            -1_000_000_000 <= best <= 1_000_000_000,
        decreases offsets@.len() - i,
    {
        let c = offsets[i].horizontal;
        let ca: i64 = if c >= 0 {
            c
        } else {
            -c
        };
        let ba: i64 = if best >= 0 {
            best
        } else {
            -best
        };
        if ca < ba {
            best = c;
        }
        i = i + 1;
    }
    best
}

/// The vertical sample value of minimal magnitude; the first of equal
/// magnitudes wins.
fn min_abs_vertical(offsets: &Vec<mirror::Point>) -> (v: i64)
    requires
        offsets@.len() >= 1,
        forall|i: int| 0 <= i < offsets@.len() ==> (#[trigger] offsets@[i]).in_range(),
    ensures
        exists|i: int| 0 <= i < offsets@.len() && (#[trigger] offsets@[i]).vertical == v,
        forall|i: int|
            0 <= i < offsets@.len() ==> spec_abs(v as int) <= spec_abs(
                (#[trigger] offsets@[i]).vertical as int,
            ),
        -1_000_000_000 <= v <= 1_000_000_000,
    {
    let mut best: i64 = offsets[0].vertical;
    let mut i: usize = 1;
    while i < offsets.len()
        invariant
            1 <= i <= offsets@.len(),
            forall|j: int| 0 <= j < offsets@.len() ==> (#[trigger] offsets@[j]).in_range(),
            exists|j: int| 0 <= j < i && (#[trigger] offsets@[j]).vertical == best,
            forall|j: int|
                0 <= j < i ==> spec_abs(best as int) <= spec_abs(
                    (#[trigger] offsets@[j]).vertical as int,
                ),
            -1_000_000_000 <= best <= 1_000_000_000,
        decreases offsets@.len() - i,
    {
        let c = offsets[i].vertical;
        let ca: i64 = if c >= 0 {
            c
        } else {
            -c
        };
        let ba: i64 = if best >= 0 {
            best
        } else {
            -best
        };
        if ca < ba {
            best = c;
        }
        i = i + 1;
    }
    best
}

/// Scales an offset by the calibration reducer, exactly per
/// `scale_reduced`; the result is never larger in magnitude than the input.
fn scale_reduced_exec(x: i64) -> (r: i64)
    requires
        -1_000_000_000 <= x <= 1_000_000_000,
    ensures
        r == scale_reduced(x as int),
        spec_abs(r as int) <= spec_abs(x as int),
{
    proof {
        let d: int = spec_abs(x as int);
        assert(d * CONTINUOUS_CALIBRATION_REDUCER_NUM <= d * CONTINUOUS_CALIBRATION_REDUCER_DEN)
            by (nonlinear_arith)
            requires
                d >= 0,
        ;
        vstd::arithmetic::div_mod::lemma_div_pos_is_pos(
            d * CONTINUOUS_CALIBRATION_REDUCER_NUM,
            CONTINUOUS_CALIBRATION_REDUCER_DEN as int,
        );
        vstd::arithmetic::div_mod::lemma_div_is_ordered(
            d * CONTINUOUS_CALIBRATION_REDUCER_NUM,
            d * CONTINUOUS_CALIBRATION_REDUCER_DEN,
            CONTINUOUS_CALIBRATION_REDUCER_DEN as int,
        );
        vstd::arithmetic::div_mod::lemma_div_multiples_vanish(
            d,
            CONTINUOUS_CALIBRATION_REDUCER_DEN as int,
        );
        assert(d * CONTINUOUS_CALIBRATION_REDUCER_DEN == CONTINUOUS_CALIBRATION_REDUCER_DEN * d)
            by (nonlinear_arith);
    }
    if x >= 0 {
        let q: u64 = (x as u64) * (CONTINUOUS_CALIBRATION_REDUCER_NUM as u64) / (
        CONTINUOUS_CALIBRATION_REDUCER_DEN as u64);
        q as i64
    } else {
        let q: u64 = ((-x) as u64) * (CONTINUOUS_CALIBRATION_REDUCER_NUM as u64) / (
        CONTINUOUS_CALIBRATION_REDUCER_DEN as u64);
        -(q as i64)
    }
}

/// Performs the light re-calibration at the end of a successful capture:
/// on each axis independently, the measured mirror offset of minimal
/// magnitude, scaled down by the reducer, is added to the persisted
/// calibration, and the mirror actuator is asked to reload it.
pub fn continuous_calibration(orb: &mut Orb, mirror_offsets: &Vec<mirror::Point>)
    requires
        old(orb).wf(),
        old(orb).mirror.enabled,
        mirror_offsets@.len() >= 2,
        forall|i: int| 0 <= i < mirror_offsets@.len() ==> (#[trigger] mirror_offsets@[i]).in_range(),
        -CALIBRATION_OFFSET_LIMIT_MICRO <= old(orb).calibration.mirror.horizontal_offset
            <= CALIBRATION_OFFSET_LIMIT_MICRO,
        -CALIBRATION_OFFSET_LIMIT_MICRO <= old(orb).calibration.mirror.vertical_offset
            <= CALIBRATION_OFFSET_LIMIT_MICRO,
    ensures
        final(orb).wf(),
        calibration_blend_rel(mirror_offsets@, old(orb).calibration, final(orb).calibration),
        final(orb).mirror.enabled,
        final(orb).mirror.inbox@ == old(orb).mirror.inbox@.push(
            mirror::Command::Recalibrate(final(orb).calibration),
        ),
        final(orb).mirror.history@ == old(orb).mirror.history@.push(
            mirror::Command::Recalibrate(final(orb).calibration),
        ),
        *final(orb) == (Orb {
            calibration: final(orb).calibration,
            mirror: final(orb).mirror,
            ..*old(orb)
        }),
{
    let horizontal = min_abs_horizontal(mirror_offsets);
    let vertical = min_abs_vertical(mirror_offsets);
    let dh = scale_reduced_exec(horizontal);
    let dv = scale_reduced_exec(vertical);
    let mut calibration = *orb.calibration();
    calibration.mirror.horizontal_offset = calibration.mirror.horizontal_offset + dh;
    calibration.mirror.vertical_offset = calibration.mirror.vertical_offset + dv;
    orb.recalibrate(calibration);
    proof {
        assert(blend_witness(
            mirror_offsets@,
            old(orb).calibration,
            orb.calibration,
            horizontal,
            vertical,
        ));
    }
}

impl Plan {
    /// Tears the session down: models unfed, auxiliary agents stopped, the
    /// session logs collected, and — when every slot was filled — the
    /// mirror calibration blended with the session's measured offsets. The
    /// capture is present exactly when the session completed; the log is
    /// present either way.
    #[verifier::rlimit(60)]
    pub fn run_post(self, orb: &mut Orb) -> (output: Output)
        requires
            self.wf(),
            old(orb).wf(),
            old(orb).distance.enabled,
            old(orb).rgb_camera.enabled,
            old(orb).ir_eye_camera.enabled,
            old(orb).ir_face_camera.enabled,
            old(orb).mirror.enabled,
            capture_complete(self) ==> self.mirror_offsets@.len() >= 2,
            -CALIBRATION_OFFSET_LIMIT_MICRO <= old(orb).calibration.mirror.horizontal_offset
                <= CALIBRATION_OFFSET_LIMIT_MICRO,
            -CALIBRATION_OFFSET_LIMIT_MICRO <= old(orb).calibration.mirror.vertical_offset
                <= CALIBRATION_OFFSET_LIMIT_MICRO,
        ensures
            final(orb).wf(),
            session_agents_disabled(*final(orb)),
            output.capture is Some <==> capture_complete(self),
            output.capture matches Some(c) ==> {
                &&& c.eye_left.ir_frame == self.left_ir->0.frame
                &&& c.eye_left.ir_net_estimate == self.left_ir->0.estimate
                &&& c.eye_left.rgb_frame == self.left_rgb->0.frame
                &&& c.eye_left.rgb_net_estimate == self.left_rgb->0.estimate
                &&& c.eye_right.ir_frame == self.right_ir->0.frame
                &&& c.eye_right.ir_net_estimate == self.right_ir->0.estimate
                &&& c.eye_right.rgb_frame == self.right_rgb->0.frame
                &&& c.eye_right.rgb_net_estimate == self.right_rgb->0.estimate
                &&& c.face_self_custody_candidate.rgb_frame == self.self_custody_candidate_rgb
                    ->0.frame
                &&& c.latitude_microdeg == self.latitude_microdeg
                &&& c.longitude_microdeg == self.longitude_microdeg
            },
            capture_complete(self) ==> calibration_blend_rel(
                self.mirror_offsets@,
                old(orb).calibration,
                final(orb).calibration,
            ),
            !capture_complete(self) ==> final(orb).calibration == old(orb).calibration,
            output.log.ir_eye_camera@ == old(orb).ir_eye_camera.history@,
            output.log.ir_face_camera@ == old(orb).ir_face_camera.history@,
            final(orb).main_mcu.log_mark is None,
            output.log.main_mcu@ == final(orb).main_mcu.sent@.subrange(
                match old(orb).main_mcu.log_mark {
                    Some(m) => m as int,
                    None => 0,
                },
                final(orb).main_mcu.sent@.len() as int,
            ),
            output.log.mirror@ == old(orb).mirror.history@ + (if capture_complete(self) {
                seq![mirror::Command::Recalibrate(final(orb).calibration)]
            } else {
                Seq::<mirror::Command>::empty()
            }),
    {
        orb.disable_ir_net();
        orb.disable_rgb_net();
        orb.ir_auto_exposure.disable();
        orb.eye_tracker.try_enable();
        let _point = orb.stop_eye_tracker();
        orb.ir_auto_focus.try_enable();
        orb.stop_ir_auto_focus();
        orb.stop_distance();
        if orb.thermal_camera.is_enabled() {
            orb.stop_thermal_camera();
        }
        orb.stop_rgb_camera();
        orb.eye_pid_controller.try_enable();
        let _offset = orb.stop_eye_pid_controller();

        let log_ir_eye_camera = orb.stop_ir_eye_camera();
        let log_ir_face_camera = orb.stop_ir_face_camera();
        let log_main_mcu = orb.main_mcu.log_stop();

        let mut this = self;
        let mut mirror_offsets: Vec<mirror::Point> = Vec::new();
        core::mem::swap(&mut mirror_offsets, &mut this.mirror_offsets);
        let capture = this.into_capture();
        if capture.is_some() {
            continuous_calibration(orb, &mirror_offsets);
        }

        let log_mirror = orb.stop_mirror();
        Output {
            capture,
            log: Log {
                ir_eye_camera: log_ir_eye_camera,
                ir_face_camera: log_ir_face_camera,
                main_mcu: log_main_mcu,
                mirror: log_mirror,
            },
        }
    }
}

/// Drives one ready agent output through the facade's pre-dispatch wiring
/// and then through the plan's matching handlers, honoring the decision
/// order of the fused outputs. The plan's handlers all continue; the
/// broker loop breaks only from `poll_extra`.
pub fn handle_broker_event(
    plan: &mut Plan,
    orb: &mut Orb,
    event: Event,
    now_ms: u64,
) -> (flow: BrokerFlow)
    requires
        old(plan).wf(),
        old(orb).wf(),
        old(plan).clock_ok(now_ms),
        event matches Event::MegaAgentOne { output: ir_net::Output::Estimate(e), .. }
            ==> valid_estimate(e) && old(plan).objectives@.len() < old(plan).total_objectives,
        event matches Event::MegaAgentTwo {
            source_ts,
            output: MegaAgentTwoOutput::FusionRgbNetFaceIdentifier { .. },
        } ==> crate::orb::rgb_has_match(old(orb).rgb_net_frames@, source_ts),
        !(event matches Event::MegaAgentTwo {
            output: MegaAgentTwoOutput::FaceIdentifier(_),
            ..
        }),
        event matches Event::MegaAgentTwo {
            output: MegaAgentTwoOutput::FusionError { face_identifier: f, .. },
            ..
        } ==> f is None,
        event matches Event::EyeTracker { point } ==> point.in_range(),
        event matches Event::EyePidController { offset } ==> offset.in_range(),
        event matches Event::Gps { latitude_microdeg, longitude_microdeg } ==> -90_000_000
            <= latitude_microdeg <= 90_000_000 && -180_000_000 <= longitude_microdeg
            <= 180_000_000 && old(plan).gps_points < usize::MAX,
    ensures
        flow == BrokerFlow::Continue,
        final(plan).wf(),
        final(orb).wf(),
        final(plan).clock_ok(now_ms),
        final(plan).objectives@ == old(plan).objectives@,
        final(plan).total_objectives == old(plan).total_objectives,
        final(plan).max_sharpness_milli >= old(plan).max_sharpness_milli,
        final(plan).target_left_eye == old(plan).target_left_eye,
        final(plan).timed_out == old(plan).timed_out,
        match event {
            Event::IrEyeFrame(f) => {
                &&& (old(orb).ir_auto_exposure.enabled ==> final(orb).ir_auto_exposure.inbox@
                    == old(orb).ir_auto_exposure.inbox@.push(
                    crate::agents::AutoExposureInput::Frame(f),
                ))
                &&& ((old(orb).ir_net_enabled && old(orb).mega_agent_one.enabled && old(
                    orb,
                ).ir_net_frames@.len() < crate::consts::IR_NET_INBOX_CAPACITY) ==> final(orb).ir_net_frames@ == old(orb).ir_net_frames@.push(f))
            },
            Event::IrFaceFrame(f) => old(orb).image_notary.enabled ==> final(orb).image_notary.inbox@ == old(orb).image_notary.inbox@.push(
                crate::agents::NotaryInput::SaveIrFaceData {
                    frame: f,
                    wavelength: old(orb).ir_led_wavelength,
                },
            ),
            Event::RgbCameraFrame(f) => (old(orb).rgb_net_enabled && old(
                orb,
            ).mega_agent_two.enabled && old(orb).rgb_net_frames@.len()
                < crate::consts::RGB_NET_INBOX_CAPACITY) ==> final(orb).rgb_net_frames@ == old(
                orb,
            ).rgb_net_frames@.push(f),
            Event::ThermalCameraFrame(f) => old(orb).image_notary.enabled ==> final(orb).image_notary.inbox@ == old(orb).image_notary.inbox@.push(
                crate::agents::NotaryInput::SaveThermalData {
                    frame: f,
                    wavelength: old(orb).ir_led_wavelength,
                },
            ),
            Event::MegaAgentOne { source_ts, output } => match output {
                ir_net::Output::Estimate(e) => {
                    &&& (!crate::orb::ir_has_match(old(orb).ir_net_frames@, source_ts) ==> {
                        &&& final(orb).ir_net_frames@ == Seq::<IrFrame>::empty()
                        &&& final(orb).pairing_misses == crate::orb::bump(
                            old(orb).pairing_misses,
                        )
                        &&& final(plan).left_ir == old(plan).left_ir
                        &&& final(plan).right_ir == old(plan).right_ir
                    })
                    &&& (crate::orb::ir_has_match(old(orb).ir_net_frames@, source_ts) ==> {
                        let k = crate::orb::ir_first_match(old(orb).ir_net_frames@, source_ts);
                        let frame = old(orb).ir_net_frames@[k];
                        let side_ok = e.perceived_side == Some(
                            expected_side(old(plan).target_left_eye),
                        );
                        let accept = side_ok && ir_accepts(
                            e,
                            frame,
                            old(orb).ir_auto_exposure.enabled,
                        );
                        &&& final(orb).pairing_misses == old(orb).pairing_misses
                        &&& final(orb).ir_net_frames@ == old(orb).ir_net_frames@.subrange(
                            k + 1,
                            old(orb).ir_net_frames@.len() as int,
                        )
                        &&& (accept && old(plan).target_left_eye ==> (final(plan).left_ir matches Some(fi) && fi.estimate == e && fi.frame == frame))
                        &&& (accept && !old(plan).target_left_eye ==> (final(plan).right_ir matches Some(fi) && fi.estimate == e && fi.frame == frame))
                        &&& (!accept ==> final(plan).left_ir == old(plan).left_ir && final(plan).right_ir == old(plan).right_ir)
                    })
                },
                _ => final(plan).left_ir == old(plan).left_ir && final(plan).right_ir == old(
                    plan,
                ).right_ir,
            },
            Event::MegaAgentTwo { source_ts, output } => match output {
                MegaAgentTwoOutput::RgbNet(out) => match out {
                    rgb_net::Output::Estimate(e) => crate::orb::rgb_has_match(
                        old(orb).rgb_net_frames@,
                        source_ts,
                    ) ==> {
                        let k = crate::orb::rgb_first_match(old(orb).rgb_net_frames@, source_ts);
                        let frame = old(orb).rgb_net_frames@[k];
                        let accept = e.primary matches Some(p) && p.bbox.spec_is_correct();
                        &&& (accept && old(plan).target_left_eye ==> (final(plan).left_rgb matches Some(fi) && fi.estimate == e && fi.frame == frame))
                        &&& (accept && !old(plan).target_left_eye ==> (final(plan).right_rgb matches Some(fi) && fi.estimate == e && fi.frame == frame))
                        &&& (!accept ==> final(plan).left_rgb == old(plan).left_rgb && final(plan).right_rgb == old(plan).right_rgb)
                    },
                    rgb_net::Output::InitUndistort => final(plan).left_rgb == old(plan).left_rgb
                        && final(plan).right_rgb == old(plan).right_rgb,
                },
                MegaAgentTwoOutput::FusionRgbNetFaceIdentifier { rgb_net: rn, face_identifier: fi } => {
                    let k = crate::orb::rgb_first_match(old(orb).rgb_net_frames@, source_ts);
                    let frame = old(orb).rgb_net_frames@[k];
                    let rgb_accept = rn.primary matches Some(p) && p.bbox.spec_is_correct();
                    let better = fi.is_valid == Some(true) && (match fi.score_milli {
                        Some(s) => s > best_score_spec(*old(plan)),
                        None => false,
                    });
                    &&& (rgb_accept && old(plan).target_left_eye ==> (final(plan).left_rgb matches Some(info) && info.estimate == rn && info.frame == frame))
                    &&& (rgb_accept && !old(plan).target_left_eye ==> (final(plan).right_rgb matches Some(info) && info.estimate == rn && info.frame
                        == frame))
                    &&& (better ==> (final(plan).self_custody_candidate_rgb matches Some(info)
                        && info.frame == frame))
                    &&& (!better ==> final(plan).self_custody_candidate_rgb == old(
                        plan,
                    ).self_custody_candidate_rgb)
                    &&& (fi.is_valid == Some(true) ==> final(orb).only_rgb_net_frames)
                },
                _ => true,
            },
            Event::IrAutoFocus { focus_milli } => final(orb).main_mcu.sent@ == old(
                orb,
            ).main_mcu.sent@.push(crate::mcu::Input::LiquidLens(Some(focus_milli))),
            Event::IrAutoExposure { exposure_us, .. } => final(orb).ir_led_duration
                == exposure_us,
            Event::EyeTracker { point } => final(orb).mirror_point == Some(point),
            Event::EyePidController { offset } => final(orb).mirror_offset == Some(offset),
            Event::Mirror { x, y } => final(orb).main_mcu.sent@ == old(orb).main_mcu.sent@.push(
                crate::mcu::Input::Mirror(x, y),
            ),
            Event::Gps { .. } => final(plan).gps_points == old(plan).gps_points + 1,
        },
{
    match event {
        Event::IrEyeFrame(frame) => {
            orb.handle_ir_eye_camera(frame);
            BrokerFlow::Continue
        },
        Event::IrFaceFrame(frame) => {
            orb.handle_ir_face_camera(frame);
            BrokerFlow::Continue
        },
        Event::RgbCameraFrame(frame) => {
            orb.handle_rgb_camera(frame);
            BrokerFlow::Continue
        },
        Event::ThermalCameraFrame(frame) => {
            orb.handle_thermal_camera(frame);
            BrokerFlow::Continue
        },
        Event::MegaAgentOne { source_ts, output } => {
            let frame = orb.handle_ir_net(source_ts, &output);
            let is_estimate = matches!(output, ir_net::Output::Estimate(_));
            if is_estimate && frame.is_none() {
                // Pairing miss: the estimate's frame was pruned; skip it.
                return BrokerFlow::Continue;
            }
            plan.handle_ir_net(orb, &output, frame, now_ms)
        },
        Event::MegaAgentTwo { source_ts, output } => match output {
            MegaAgentTwoOutput::RgbNet(out) => {
                let frame = orb.handle_rgb_net(source_ts, &out);
                let is_estimate = matches!(out, rgb_net::Output::Estimate(_));
                if is_estimate && frame.is_none() {
                    return BrokerFlow::Continue;
                }
                plan.handle_rgb_net(orb, &out, frame)
            },
            MegaAgentTwoOutput::FaceIdentifier(_) => {
                proof {
                    assert(false);
                }
                BrokerFlow::Continue
            },
            MegaAgentTwoOutput::FusionRgbNetFaceIdentifier { rgb_net: rn, face_identifier: fi } => {
                let frame = orb.handle_fusion_rgb_net_face_identifier(source_ts, rn, fi);
                // The fused outputs are delivered in decision order: the
                // landmark verdict first, the face verdict second.
                let rn_out = rgb_net::Output::Estimate(rn);
                let first = plan.handle_rgb_net(orb, &rn_out, Some(frame));
                if matches!(first, BrokerFlow::Break) {
                    return BrokerFlow::Break;
                }
                let fi_out = face_identifier::Output::IsValidImage(fi);
                plan.handle_face_identifier(orb, &fi_out, Some(frame))
            },
            MegaAgentTwoOutput::FusionError { rgb_net: rne, face_identifier: fie } => {
                match rne {
                    Some(out) => {
                        let frame = orb.handle_rgb_net(source_ts, &out);
                        let is_estimate = matches!(out, rgb_net::Output::Estimate(_));
                        if !(is_estimate && frame.is_none()) {
                            let first = plan.handle_rgb_net(orb, &out, frame);
                            if matches!(first, BrokerFlow::Break) {
                                return BrokerFlow::Break;
                            }
                        }
                    },
                    None => (),
                }
                BrokerFlow::Continue
            },
        },
        Event::IrAutoFocus { focus_milli } => {
            orb.handle_ir_auto_focus(focus_milli);
            BrokerFlow::Continue
        },
        Event::IrAutoExposure { gain_milli, exposure_us } => {
            orb.handle_ir_auto_exposure(gain_milli, exposure_us);
            BrokerFlow::Continue
        },
        Event::EyeTracker { point } => {
            orb.handle_eye_tracker(point);
            BrokerFlow::Continue
        },
        Event::EyePidController { offset } => {
            orb.handle_eye_pid_controller(offset);
            BrokerFlow::Continue
        },
        Event::Mirror { x, y } => {
            orb.handle_mirror(x, y);
            BrokerFlow::Continue
        },
        Event::Gps { latitude_microdeg, longitude_microdeg } => {
            plan.track_gps(latitude_microdeg, longitude_microdeg);
            BrokerFlow::Continue
        },
    }
}

} // verus!
