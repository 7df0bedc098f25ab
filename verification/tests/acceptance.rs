//! Boundary behavior of the frame acceptance gates and the occlusion
//! filter input substitution.

use orb_core::biometric_capture::{handle_broker_event, Plan};
use orb_core::calibration::Calibration;
use orb_core::camera::IrFrame;
use orb_core::consts::{
    IRIS_BRIGHTNESS_RANGE_MAX_MILLI, IRIS_BRIGHTNESS_RANGE_MIN_MILLI, IRIS_SCORE_MIN_MILLI,
    IRIS_SHARPNESS_MIN_MILLI, THRESHOLD_OCCLUSION_30_MILLI,
};
use orb_core::ir_net;
use orb_core::led;
use orb_core::mcu::IrLed;
use orb_core::orb::{Config, Event, Orb};
use orb_core::pid::LowPassFilter;

fn session() -> (Plan, Orb) {
    let mut orb = Orb::new(Calibration::default(), Config { thermal_camera: false });
    let mut plan = Plan::with_start_side(&vec![(IrLed::L850, 500u16)], Some(60_000), 0, true);
    plan.run_pre(&mut orb);
    (plan, orb)
}

fn feed(plan: &mut Plan, orb: &mut Orb, ts: u64, mean_milli: i64, est: ir_net::EstimateOutput) {
    handle_broker_event(plan, orb, Event::IrEyeFrame(IrFrame { source_ts: ts, mean_milli }), ts);
    handle_broker_event(
        plan,
        orb,
        Event::MegaAgentOne { source_ts: ts, output: ir_net::Output::Estimate(est) },
        ts,
    );
}

fn left_estimate(score_milli: i64) -> ir_net::EstimateOutput {
    ir_net::EstimateOutput {
        sharpness_milli: Some(2_000),
        score_milli,
        perceived_side: Some(1),
        occlusion_30_milli: Some(THRESHOLD_OCCLUSION_30_MILLI * 2),
    }
}

#[test]
fn perceived_side_none_is_skipped_without_touching_slots() {
    let (mut plan, mut orb) = session();
    let est = ir_net::EstimateOutput { perceived_side: None, ..left_estimate(999) };
    feed(&mut plan, &mut orb, 1, 135_000, est);
    assert!(plan.left_ir.is_none());
    assert!(plan.right_ir.is_none());
    assert_eq!(plan.max_sharpness_milli, 0);
}

#[test]
fn score_exactly_at_minimum_is_accepted() {
    let (mut plan, mut orb) = session();
    feed(&mut plan, &mut orb, 1, 135_000, left_estimate(IRIS_SCORE_MIN_MILLI));
    assert!(plan.left_ir.is_some());
}

#[test]
fn score_just_below_minimum_is_rejected() {
    let (mut plan, mut orb) = session();
    feed(&mut plan, &mut orb, 1, 135_000, left_estimate(IRIS_SCORE_MIN_MILLI - 1));
    assert!(plan.left_ir.is_none());
}

#[test]
fn brightness_edges_respect_the_half_open_range() {
    // With auto-exposure enabled, the lower edge is inside the range and
    // the upper edge is outside it.
    let (mut plan, mut orb) = session();
    assert!(orb.ir_auto_exposure.is_enabled());
    feed(&mut plan, &mut orb, 1, IRIS_BRIGHTNESS_RANGE_MAX_MILLI, left_estimate(999));
    assert!(plan.left_ir.is_none());
    feed(&mut plan, &mut orb, 2, IRIS_BRIGHTNESS_RANGE_MIN_MILLI, left_estimate(999));
    assert!(plan.left_ir.is_some());
}

#[test]
fn brightness_is_not_gated_with_auto_exposure_disabled() {
    let (mut plan, mut orb) = session();
    orb.ir_auto_exposure.disable();
    feed(&mut plan, &mut orb, 1, IRIS_BRIGHTNESS_RANGE_MAX_MILLI, left_estimate(999));
    assert!(plan.left_ir.is_some());
}

#[test]
fn missing_occlusion_reading_is_treated_as_safely_above_threshold() {
    // A fresh filter seeds with its first sample: feeding a reading the
    // model could not produce must seed it with threshold times 1.05.
    let mut orb = Orb::new(Calibration::default(), Config { thermal_camera: false });
    let mut plan = Plan::with_start_side(&vec![(IrLed::L850, 500u16)], None, 0, true);
    let advanced = plan.set_next_objective(&mut orb);
    assert!(advanced);
    let est = ir_net::EstimateOutput { occlusion_30_milli: None, ..left_estimate(0) };
    orb.enable_ir_net();
    feed(&mut plan, &mut orb, 1, 135_000, est);
    assert_eq!(
        plan.occlusion_30_filter.state_milli,
        Some(THRESHOLD_OCCLUSION_30_MILLI * 105 / 100)
    );
}

#[test]
fn blurry_occlusion_reading_is_treated_as_safely_above_threshold() {
    let mut orb = Orb::new(Calibration::default(), Config { thermal_camera: false });
    let mut plan = Plan::with_start_side(&vec![(IrLed::L850, 500u16)], None, 0, true);
    let advanced = plan.set_next_objective(&mut orb);
    assert!(advanced);
    let est = ir_net::EstimateOutput {
        sharpness_milli: Some(IRIS_SHARPNESS_MIN_MILLI - 1),
        score_milli: 0,
        perceived_side: Some(1),
        occlusion_30_milli: Some(0),
    };
    orb.enable_ir_net();
    feed(&mut plan, &mut orb, 1, 135_000, est);
    assert_eq!(
        plan.occlusion_30_filter.state_milli,
        Some(THRESHOLD_OCCLUSION_30_MILLI * 105 / 100)
    );
}

#[test]
fn progress_is_reported_exactly() {
    let (mut plan, mut orb) = session();
    let led_before = orb.led_log.len();
    feed(&mut plan, &mut orb, 1, 135_000, left_estimate(900));
    // Sharpness 2.0 saturates the per-objective share; one of two
    // objectives is active, so the bar reads half of the objectives'
    // share of the progress range: (0 + 1000) / 2 * (800 - 250) / 1000.
    assert_eq!(
        &orb.led_log[led_before..],
        &[
            led::Event::BiometricCaptureOcclusion(false),
            led::Event::BiometricCaptureHalfObjectivesCompleted,
            led::Event::BiometricCaptureProgress(275),
        ]
    );
}

#[test]
fn low_pass_filter_follows_its_formula() {
    let mut filter = LowPassFilter::new();
    assert_eq!(filter.add(900, 0, 400), 900);
    // One step of 2000 ms with a 400 ms time constant moves the state by
    // dt / (dt + rc) of the distance: 900 - 900 * 2000 / 2400.
    assert_eq!(filter.add(0, 2_000, 400), 150);
    assert_eq!(filter.state_milli, Some(150));
}

#[test]
fn max_sharpness_never_decreases_within_an_objective() {
    let (mut plan, mut orb) = session();
    feed(&mut plan, &mut orb, 1, 135_000, ir_net::EstimateOutput {
        sharpness_milli: Some(2_000),
        ..left_estimate(0)
    });
    assert_eq!(plan.max_sharpness_milli, 2_000);
    feed(&mut plan, &mut orb, 2, 135_000, ir_net::EstimateOutput {
        sharpness_milli: Some(1_500),
        ..left_estimate(0)
    });
    assert_eq!(plan.max_sharpness_milli, 2_000);
    feed(&mut plan, &mut orb, 3, 135_000, ir_net::EstimateOutput {
        sharpness_milli: Some(2_500),
        ..left_estimate(0)
    });
    assert_eq!(plan.max_sharpness_milli, 2_500);
}
