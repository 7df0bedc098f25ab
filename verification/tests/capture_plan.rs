//! End-to-end capture sessions driven event by event.

use orb_core::biometric_capture::{handle_broker_event, Plan};
use orb_core::calibration::Calibration;
use orb_core::camera::{IrFrame, RgbFrame};
use orb_core::consts::{
    IR_NET_INBOX_CAPACITY, IRIS_SCORE_MIN_MILLI, THRESHOLD_OCCLUSION_30_MILLI,
};
use orb_core::face_identifier::IsValidOutput;
use orb_core::ir_net;
use orb_core::led;
use orb_core::mcu::IrLed;
use orb_core::mirror;
use orb_core::orb::{Config, Event, MegaAgentTwoOutput, Orb, Telemetry};
use orb_core::rgb_net;
use orb_core::BrokerFlow;

fn fresh_orb() -> Orb {
    Orb::new(Calibration::default(), Config { thermal_camera: false })
}

fn ir_estimate(side: Option<i64>, score_milli: i64) -> ir_net::EstimateOutput {
    ir_net::EstimateOutput {
        sharpness_milli: Some(2_000),
        score_milli,
        perceived_side: side,
        occlusion_30_milli: Some(THRESHOLD_OCCLUSION_30_MILLI * 2),
    }
}

fn rgb_estimate_ok() -> rgb_net::EstimateOutput {
    let p = rgb_net::Point { x_milli: 10_000, y_milli: 20_000 };
    let q = rgb_net::Point { x_milli: 30_000, y_milli: 40_000 };
    rgb_net::EstimateOutput {
        primary: Some(rgb_net::Prediction {
            bbox: rgb_net::Rectangle { start: p, end: q },
            left_eye: p,
            right_eye: q,
        }),
    }
}

fn face_valid(score_milli: i64) -> IsValidOutput {
    IsValidOutput {
        is_valid: Some(true),
        score_milli: Some(score_milli),
        error: None,
        rgb_net_bbox: rgb_net::Rectangle {
            start: rgb_net::Point { x_milli: 0, y_milli: 0 },
            end: rgb_net::Point { x_milli: 1_000, y_milli: 1_000 },
        },
        rgb_net_eye_landmarks: (
            rgb_net::Point { x_milli: 1, y_milli: 2 },
            rgb_net::Point { x_milli: 3, y_milli: 4 },
        ),
    }
}

fn feed_ir(plan: &mut Plan, orb: &mut Orb, ts: u64, mean_milli: i64, est: ir_net::EstimateOutput, now: u64) {
    let frame = IrFrame { source_ts: ts, mean_milli };
    handle_broker_event(plan, orb, Event::IrEyeFrame(frame), now);
    handle_broker_event(
        plan,
        orb,
        Event::MegaAgentOne { source_ts: ts, output: ir_net::Output::Estimate(est) },
        now,
    );
}

#[test]
fn two_eye_success() {
    let mut orb = fresh_orb();
    let wavelengths = vec![(IrLed::L850, 500u16)];
    // Fixed start side instead of the random draw: the left eye first.
    let mut plan = Plan::with_start_side(&wavelengths, Some(30_000), 0, true);
    plan.run_pre(&mut orb);
    assert!(plan.target_left_eye);
    assert!(orb.target_left_eye);
    assert!(orb.only_rgb_net_frames);

    // Left IR frame and estimate: perceived side 1 (left), score 0.92.
    feed_ir(&mut plan, &mut orb, 10, 135_000, ir_estimate(Some(1), 920), 100);
    assert!(plan.left_ir.is_some());
    // Left RGB frame and estimate with a valid primary bounding box.
    handle_broker_event(&mut plan, &mut orb, Event::RgbCameraFrame(RgbFrame { source_ts: 11 }), 110);
    handle_broker_event(
        &mut plan,
        &mut orb,
        Event::MegaAgentTwo {
            source_ts: 11,
            output: MegaAgentTwoOutput::RgbNet(rgb_net::Output::Estimate(rgb_estimate_ok())),
        },
        120,
    );
    assert!(plan.left_rgb.is_some());
    assert_eq!(plan.poll_extra(130), BrokerFlow::Break);

    // A mirror offset must be on record before the between-breaks check.
    handle_broker_event(
        &mut plan,
        &mut orb,
        Event::EyePidController { offset: mirror::Point { horizontal: 500, vertical: -300 } },
        140,
    );
    assert!(!plan.run_check(&mut orb));
    assert!(!plan.target_left_eye);
    assert!(!orb.only_rgb_net_frames);

    // Right IR frame: perceived side 0 (right), score 0.88.
    feed_ir(&mut plan, &mut orb, 20, 135_000, ir_estimate(Some(0), 880), 200);
    assert!(plan.right_ir.is_some());
    // Right RGB frame goes through the fused request now.
    handle_broker_event(&mut plan, &mut orb, Event::RgbCameraFrame(RgbFrame { source_ts: 21 }), 210);
    handle_broker_event(
        &mut plan,
        &mut orb,
        Event::MegaAgentTwo {
            source_ts: 21,
            output: MegaAgentTwoOutput::FusionRgbNetFaceIdentifier {
                rgb_net: rgb_estimate_ok(),
                face_identifier: face_valid(700),
            },
        },
        220,
    );
    assert!(plan.right_rgb.is_some());
    assert!(plan.self_custody_candidate_rgb.is_some());
    // A valid face switches the pipeline back to landmark-only requests.
    assert!(orb.only_rgb_net_frames);
    assert_eq!(plan.poll_extra(230), BrokerFlow::Break);

    handle_broker_event(
        &mut plan,
        &mut orb,
        Event::EyePidController { offset: mirror::Point { horizontal: 200, vertical: 100 } },
        240,
    );
    assert!(plan.run_check(&mut orb));
    assert!(orb.telemetry.contains(&Telemetry::BothEyesCaptured));

    let output = plan.run_post(&mut orb);
    let capture = output.capture.expect("both eyes and the face were captured");
    assert_eq!(capture.eye_left.ir_frame.source_ts, 10);
    assert_eq!(capture.eye_left.rgb_frame.source_ts, 11);
    assert_eq!(capture.eye_right.ir_frame.source_ts, 20);
    assert_eq!(capture.eye_right.rgb_frame.source_ts, 21);
    assert_eq!(capture.face_self_custody_candidate.rgb_frame.source_ts, 21);
    // Continuous calibration ran exactly once: one reload command in the
    // mirror history.
    let reloads = output
        .log
        .mirror
        .iter()
        .filter(|c| matches!(c, mirror::Command::Recalibrate(_)))
        .count();
    assert_eq!(reloads, 1);
}

#[test]
fn perceived_side_mismatch() {
    let mut orb = fresh_orb();
    let wavelengths = vec![(IrLed::L850, 500u16)];
    let mut plan = Plan::with_start_side(&wavelengths, Some(30_000), 0, true);
    plan.run_pre(&mut orb);
    assert!(plan.target_left_eye);

    // Every estimate claims the right eye while the left is targeted.
    for i in 0..5u64 {
        feed_ir(&mut plan, &mut orb, 10 + i, 135_000, ir_estimate(Some(0), 950), 100 + i);
    }
    assert!(plan.left_ir.is_none());
    assert!(plan.right_ir.is_none());

    // The session can only time out.
    assert_eq!(plan.poll_extra(40_000), BrokerFlow::Break);
    assert!(plan.timed_out);
    handle_broker_event(
        &mut plan,
        &mut orb,
        Event::EyePidController { offset: mirror::Point { horizontal: 1, vertical: 1 } },
        40_001,
    );
    assert!(plan.run_check(&mut orb));
    let output = plan.run_post(&mut orb);
    assert!(output.capture.is_none());
}

#[test]
fn backpressure_drop() {
    let mut orb = fresh_orb();
    let wavelengths = vec![(IrLed::L850, 500u16)];
    let mut plan = Plan::with_start_side(&wavelengths, Some(30_000), 0, true);
    plan.run_pre(&mut orb);

    // Flood the IR stream faster than the model consumes.
    let flood: u64 = 3 * IR_NET_INBOX_CAPACITY as u64;
    for i in 0..flood {
        handle_broker_event(
            &mut plan,
            &mut orb,
            Event::IrEyeFrame(IrFrame { source_ts: 100 + i, mean_milli: 135_000 }),
            100 + i,
        );
        assert!(orb.ir_net_frames.len() <= IR_NET_INBOX_CAPACITY);
    }
    assert_eq!(orb.ir_net_frames.len(), IR_NET_INBOX_CAPACITY);
    let queued = IR_NET_INBOX_CAPACITY as u64;

    // Exactly the frames that were accepted produce pairings.
    let mut paired = 0u64;
    for i in 0..queued {
        handle_broker_event(
            &mut plan,
            &mut orb,
            Event::MegaAgentOne {
                source_ts: 100 + i,
                output: ir_net::Output::Estimate(ir_estimate(Some(1), IRIS_SCORE_MIN_MILLI)),
            },
            200 + i,
        );
        paired += 1;
    }
    assert_eq!(paired, queued);
    assert_eq!(orb.pairing_misses, 0);
    assert_eq!(orb.ir_net_frames.len(), 0);
}

#[test]
fn timeout_before_face_candidate() {
    let mut orb = fresh_orb();
    let wavelengths = vec![(IrLed::L850, 500u16)];
    let mut plan = Plan::with_start_side(&wavelengths, Some(30_000), 0, true);
    plan.run_pre(&mut orb);

    // Drive the mirror once so its history is not empty.
    handle_broker_event(
        &mut plan,
        &mut orb,
        Event::EyeTracker { point: mirror::Point { horizontal: 1_000, vertical: 2_000 } },
        50,
    );

    // Fill the left eye, advance, fill the right eye; no face ever valid.
    feed_ir(&mut plan, &mut orb, 10, 135_000, ir_estimate(Some(1), 950), 100);
    handle_broker_event(&mut plan, &mut orb, Event::RgbCameraFrame(RgbFrame { source_ts: 11 }), 110);
    handle_broker_event(
        &mut plan,
        &mut orb,
        Event::MegaAgentTwo {
            source_ts: 11,
            output: MegaAgentTwoOutput::RgbNet(rgb_net::Output::Estimate(rgb_estimate_ok())),
        },
        120,
    );
    handle_broker_event(
        &mut plan,
        &mut orb,
        Event::EyePidController { offset: mirror::Point { horizontal: 5, vertical: 5 } },
        130,
    );
    assert!(!plan.run_check(&mut orb));
    feed_ir(&mut plan, &mut orb, 20, 135_000, ir_estimate(Some(0), 950), 200);
    handle_broker_event(&mut plan, &mut orb, Event::RgbCameraFrame(RgbFrame { source_ts: 21 }), 210);
    handle_broker_event(
        &mut plan,
        &mut orb,
        Event::MegaAgentTwo {
            source_ts: 21,
            output: MegaAgentTwoOutput::FusionRgbNetFaceIdentifier {
                rgb_net: rgb_estimate_ok(),
                face_identifier: IsValidOutput { is_valid: Some(false), ..face_valid(900) },
            },
        },
        220,
    );
    assert!(plan.right_rgb.is_some());
    assert!(plan.self_custody_candidate_rgb.is_none());

    // Both eyes are complete, the last objective is reached, but no
    // candidate exists: only the timeout breaks the loop.
    assert_eq!(plan.poll_extra(1_000), BrokerFlow::Continue);
    assert_eq!(plan.poll_extra(30_000), BrokerFlow::Break);
    assert!(plan.timed_out);
    handle_broker_event(
        &mut plan,
        &mut orb,
        Event::EyePidController { offset: mirror::Point { horizontal: 5, vertical: 5 } },
        30_001,
    );
    assert!(plan.run_check(&mut orb));

    let output = plan.run_post(&mut orb);
    assert!(output.capture.is_none());
    assert!(!output.log.ir_eye_camera.is_empty());
    assert!(!output.log.ir_face_camera.is_empty());
    assert!(!output.log.main_mcu.is_empty());
    assert!(!output.log.mirror.is_empty());
}

#[test]
fn occlusion_hysteresis_pulse() {
    let mut orb = fresh_orb();
    let wavelengths = vec![(IrLed::L850, 500u16)];
    let mut plan = Plan::with_start_side(&wavelengths, Some(60_000), 0, true);
    plan.run_pre(&mut orb);

    let occluded = ir_net::EstimateOutput {
        sharpness_milli: Some(2_000),
        score_milli: 0,
        perceived_side: Some(0),
        occlusion_30_milli: Some(0),
        // Perceived side 0 with the left eye targeted: the occlusion filter
        // still runs, nothing else moves.
    };
    let clear = ir_net::EstimateOutput { occlusion_30_milli: Some(900), ..occluded };

    let occl_events = |orb: &Orb| -> Vec<bool> {
        orb.led_log
            .iter()
            .filter_map(|e| match e {
                led::Event::BiometricCaptureOcclusion(on) => Some(*on),
                _ => None,
            })
            .collect()
    };

    // A first clear sample starts the filter clock; the indicator is off.
    feed_ir(&mut plan, &mut orb, 1, 135_000, clear, 100);
    assert_eq!(occl_events(&orb), vec![false]);

    // One deep dip: a long step pulls the filtered value under threshold.
    feed_ir(&mut plan, &mut orb, 2, 135_000, occluded, 2_100);
    let after_dip = occl_events(&orb);
    assert_eq!(after_dip.last(), Some(&true));

    // The next two samples are clear again, but arrive within 450 ms of
    // the assertion: the indicator must hold.
    feed_ir(&mut plan, &mut orb, 3, 135_000, clear, 2_200);
    feed_ir(&mut plan, &mut orb, 4, 135_000, clear, 2_400);
    let after_clear = occl_events(&orb);
    assert_eq!(after_clear, vec![false, true, true, true]);
}

#[test]
fn continuous_calibration_sign() {
    let mut orb = fresh_orb();
    orb.mirror.enable();
    let samples = vec![
        mirror::Point { horizontal: 300_000, vertical: 500_000 },
        mirror::Point { horizontal: -100_000, vertical: 200_000 },
        mirror::Point { horizontal: 50_000, vertical: 900_000 },
    ];
    let before = *orb.calibration();
    orb_core::biometric_capture::continuous_calibration(&mut orb, &samples);
    let after = *orb.calibration();
    // The minimal magnitudes, per axis independently, scaled by the
    // reducer of one fifth.
    assert_eq!(
        after.mirror.horizontal_offset,
        before.mirror.horizontal_offset + 50_000 / 5
    );
    assert_eq!(after.mirror.vertical_offset, before.mirror.vertical_offset + 200_000 / 5);
}
