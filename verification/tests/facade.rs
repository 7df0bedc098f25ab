//! Facade-level behavior: lifecycle round trips, command idempotence,
//! frame-estimate pairing, and calibration blending.

use orb_core::agent::AgentCell;
use orb_core::biometric_capture::{continuous_calibration, handle_broker_event, Plan};
use orb_core::calibration::Calibration;
use orb_core::camera::{IrCommand, IrFrame};
use orb_core::consts::{
    IR_LED_MAX_DURATION, IR_LED_MAX_DURATION_740NM, IR_LED_MIN_DURATION,
};
use orb_core::ir_net;
use orb_core::mcu;
use orb_core::mcu::IrLed;
use orb_core::mirror;
use orb_core::orb::{AgentId, Config, Event, Orb, ShutdownStep};

fn fresh_orb() -> Orb {
    Orb::new(Calibration::default(), Config { thermal_camera: false })
}

#[test]
fn enable_then_disable_cell_restores_state() {
    let mut cell: AgentCell<IrCommand> = AgentCell::new();
    assert!(!cell.is_enabled());
    cell.enable();
    assert!(cell.is_enabled());
    cell.disable();
    assert!(!cell.is_enabled());
    assert!(cell.inbox.is_empty());
    assert!(cell.history.is_empty());
}

#[test]
fn enable_then_disable_model_restores_observables() {
    let mut orb = fresh_orb();
    let only_before = orb.only_rgb_net_frames;
    let wavelength_before = orb.ir_wavelength();
    orb.enable_ir_net();
    orb.enable_rgb_net(false);
    assert!(orb.is_ir_net_enabled());
    assert!(orb.is_rgb_net_enabled());
    orb.disable_ir_net();
    orb.disable_rgb_net();
    assert!(!orb.is_ir_net_enabled());
    assert!(!orb.is_rgb_net_enabled());
    assert_eq!(orb.only_rgb_net_frames, only_before);
    assert_eq!(orb.ir_wavelength(), wavelength_before);
    assert!(orb.ir_net_frames.is_empty());
    assert!(orb.rgb_net_frames.is_empty());
}

#[test]
fn set_ir_wavelength_twice_is_idempotent_on_state() {
    let mut orb = fresh_orb();
    let sent_before = orb.main_mcu.sent.len();
    orb.set_ir_wavelength(IrLed::L940);
    let range_once = orb.exposure_range();
    orb.set_ir_wavelength(IrLed::L940);
    // Two MCU commands were issued, yet the observable state is that of a
    // single call.
    assert_eq!(orb.main_mcu.sent.len(), sent_before + 2);
    assert_eq!(
        &orb.main_mcu.sent[sent_before..],
        &[mcu::Input::IrLed(IrLed::L940), mcu::Input::IrLed(IrLed::L940)]
    );
    assert_eq!(orb.ir_wavelength(), IrLed::L940);
    assert_eq!(orb.exposure_range(), range_once);
}

#[test]
fn exposure_range_follows_wavelength() {
    let mut orb = fresh_orb();
    orb.set_ir_wavelength(IrLed::L740);
    assert_eq!(orb.exposure_range(), (IR_LED_MIN_DURATION, IR_LED_MAX_DURATION_740NM));
    orb.set_ir_wavelength(IrLed::L850);
    assert_eq!(orb.exposure_range(), (IR_LED_MIN_DURATION, IR_LED_MAX_DURATION));
}

#[test]
fn duration_command_path_depends_on_wavelength() {
    let mut orb = fresh_orb();
    orb.set_ir_wavelength(IrLed::L740);
    orb.set_ir_duration(420);
    assert_eq!(orb.main_mcu.sent.last(), Some(&mcu::Input::IrLedDuration740nm(420)));
    orb.set_ir_wavelength(IrLed::L850);
    orb.set_ir_duration(300);
    assert_eq!(orb.main_mcu.sent.last(), Some(&mcu::Input::IrLedDuration(300)));
}

#[test]
fn auto_exposure_output_keeps_illuminator_consistent() {
    let mut orb = fresh_orb();
    orb.start_ir_eye_camera();
    orb.handle_ir_auto_exposure(4_000, 250);
    // Both the camera and the illuminator follow the new exposure.
    assert_eq!(orb.ir_led_duration, 250);
    assert_eq!(orb.main_mcu.sent.last(), Some(&mcu::Input::IrLedDuration(250)));
    assert!(orb.ir_eye_camera.inbox.contains(&IrCommand::SetGain(4_000)));
    assert!(orb.ir_eye_camera.inbox.contains(&IrCommand::SetExposure(250)));
}

#[test]
fn restore_pairs_by_timestamp_in_fifo_order() {
    let mut orb = fresh_orb();
    orb.enable_ir_net();
    for ts in [1u64, 2, 3] {
        orb.handle_ir_eye_camera(IrFrame { source_ts: ts, mean_milli: 100_000 });
    }
    // The estimate for the middle frame discards the older entry and keeps
    // the newer one.
    let est = ir_net::EstimateOutput {
        sharpness_milli: Some(1_000),
        score_milli: 900,
        perceived_side: Some(1),
        occlusion_30_milli: Some(700),
    };
    let restored = orb.handle_ir_net(2, &ir_net::Output::Estimate(est));
    assert_eq!(restored.map(|f| f.source_ts), Some(2));
    assert_eq!(orb.pairing_misses, 0);
    assert_eq!(orb.ir_net_frames.len(), 1);
    assert_eq!(orb.ir_net_frames[0].source_ts, 3);
    // An estimate whose frame was already discarded drains the queue and
    // counts a pairing miss.
    let missed = orb.handle_ir_net(1, &ir_net::Output::Estimate(est));
    assert!(missed.is_none());
    assert_eq!(orb.pairing_misses, 1);
    assert!(orb.ir_net_frames.is_empty());
}

#[test]
fn run_post_disables_everything_run_pre_started() {
    let mut orb = fresh_orb();
    let wavelengths = vec![(IrLed::L850, 500u16)];
    let mut plan = Plan::with_start_side(&wavelengths, Some(30_000), 0, false);
    plan.run_pre(&mut orb);
    assert!(orb.ir_eye_camera.is_enabled());
    assert!(orb.ir_auto_exposure.is_enabled());
    assert!(orb.mirror.is_enabled());
    let output = plan.run_post(&mut orb);
    assert!(!orb.is_ir_net_enabled());
    assert!(!orb.is_rgb_net_enabled());
    assert!(!orb.ir_eye_camera.is_enabled());
    assert!(!orb.ir_face_camera.is_enabled());
    assert!(!orb.rgb_camera.is_enabled());
    assert!(!orb.thermal_camera.is_enabled());
    assert!(!orb.ir_auto_focus.is_enabled());
    assert!(!orb.ir_auto_exposure.is_enabled());
    assert!(!orb.eye_tracker.is_enabled());
    assert!(!orb.eye_pid_controller.is_enabled());
    assert!(!orb.mirror.is_enabled());
    assert!(!orb.distance.is_enabled());
    assert!(output.capture.is_none());
}

#[test]
fn objective_queue_never_grows_across_checks() {
    let mut orb = fresh_orb();
    let wavelengths = vec![(IrLed::L850, 500u16), (IrLed::L940, 400u16)];
    let mut plan = Plan::with_start_side(&wavelengths, Some(30_000), 0, true);
    plan.run_pre(&mut orb);
    let mut previous = plan.objectives.len();
    loop {
        handle_broker_event(
            &mut plan,
            &mut orb,
            Event::EyePidController { offset: mirror::Point { horizontal: 1, vertical: 1 } },
            0,
        );
        let done = plan.run_check(&mut orb);
        assert!(plan.objectives.len() <= previous);
        previous = plan.objectives.len();
        if done {
            break;
        }
    }
    assert_eq!(plan.objectives.len(), 0);
}

#[test]
fn objectives_cross_produce_wavelengths_and_eyes() {
    let wavelengths = vec![(IrLed::L850, 300u16), (IrLed::L940, 350u16)];
    let plan = Plan::with_start_side(&wavelengths, None, 0, true);
    let objectives: Vec<_> = plan.objectives.iter().collect();
    assert_eq!(objectives.len(), 4);
    assert!(objectives[0].target_left_eye && objectives[0].only_rgb_net_frames);
    assert_eq!(objectives[0].ir_led_wavelength, IrLed::L850);
    assert_eq!(objectives[0].ir_led_duration, 300);
    assert!(objectives[1].target_left_eye && objectives[1].only_rgb_net_frames);
    assert_eq!(objectives[1].ir_led_wavelength, IrLed::L940);
    assert!(!objectives[2].target_left_eye && !objectives[2].only_rgb_net_frames);
    assert_eq!(objectives[2].ir_led_wavelength, IrLed::L850);
    assert!(!objectives[3].target_left_eye && !objectives[3].only_rgb_net_frames);
    assert_eq!(objectives[3].ir_led_duration, 350);
}

#[test]
fn zero_magnitude_offset_sample_is_noop() {
    let mut orb = fresh_orb();
    orb.mirror.enable();
    let before = *orb.calibration();
    let samples = vec![
        mirror::Point { horizontal: 250_000, vertical: -400_000 },
        mirror::Point { horizontal: 0, vertical: 0 },
    ];
    continuous_calibration(&mut orb, &samples);
    assert_eq!(*orb.calibration(), before);
    // The mirror is still asked to reload, with the unchanged calibration.
    assert_eq!(orb.mirror.inbox.last(), Some(&mirror::Command::Recalibrate(before)));
}

#[test]
fn gps_fixes_average_incrementally() {
    let mut plan = Plan::with_start_side(&vec![(IrLed::L850, 500u16)], None, 0, true);
    plan.track_gps(10_000_000, 20_000_000);
    assert_eq!(plan.latitude_microdeg, Some(10_000_000));
    assert_eq!(plan.longitude_microdeg, Some(20_000_000));
    plan.track_gps(20_000_000, 40_000_000);
    assert_eq!(plan.latitude_microdeg, Some(15_000_000));
    assert_eq!(plan.longitude_microdeg, Some(30_000_000));
    assert_eq!(plan.gps_points, 2);
}

#[test]
fn shutdown_protocol_is_ordered() {
    let mut orb = fresh_orb();
    let steps = orb.shutdown();
    assert_eq!(
        steps,
        vec![
            ShutdownStep::PowerDownMelody,
            ShutdownStep::StoreConfig,
            ShutdownStep::SyncFilesystem,
            ShutdownStep::McuShutdown,
            ShutdownStep::SchedulePoweroff,
            ShutdownStep::ProcessExit,
        ]
    );
    assert!(matches!(orb.main_mcu.sent.last(), Some(mcu::Input::Shutdown(_))));
}

#[test]
fn polling_order_is_leaves_first() {
    let order = orb_core::orb::poll_order();
    assert_eq!(order.len(), 15);
    assert_eq!(order[0], AgentId::IrEyeCamera);
    assert_eq!(order[3], AgentId::ThermalCamera);
    assert_eq!(order[4], AgentId::MegaAgentOne);
    assert_eq!(order[9], AgentId::EyePidController);
    assert_eq!(order[10], AgentId::Mirror);
    assert_eq!(order[14], AgentId::ImageNotary);
}
