//! The orb facade: the named roster of agent cells, the shared actuator
//! state, and the pre-dispatch wiring that routes every agent output to its
//! derived agents before a plan sees it.
//!
//! The facade is a state machine: it consumes one agent output at a time and
//! records every actuator command and agent input it decides to issue.
//! Performing those sends — and the waiting they imply — happens outside
//! this crate, which is what keeps the routing rules provable.

use vstd::prelude::*;
use crate::agent::AgentCell;
use crate::agents::{
    AutoExposureInput, AutoFocusInput, DistanceInput, EyePidInput, EyeTrackerInput,
    MegaAgentTwoRequest, NotaryInput, QrCodeInput, UploaderInput,
};
use crate::calibration::Calibration;
use crate::camera::{IrCommand, IrFrame, RgbCommand, RgbFrame, ThermalCommand, ThermalFrame};
use crate::consts::{
    DEFAULT_IR_LED_DURATION, IR_CAMERA_FRAME_RATE,
    IR_LED_MAX_DURATION, IR_LED_MAX_DURATION_740NM, IR_LED_MIN_DURATION, IR_NET_INBOX_CAPACITY,
    GRACEFUL_SHUTDOWN_MAX_DELAY_SECONDS, RGB_NET_INBOX_CAPACITY,
};
use crate::face_identifier;
use crate::ir_net;
use crate::led;
use crate::mcu;
use crate::mcu::{DEFAULT_IR_LED_WAVELENGTH, IrLed};
use crate::mirror;
use crate::rgb_net;
use std::collections::VecDeque;

verus! {

/// The part of the shared configuration the capture control plane reads.
#[derive(Clone, Copy, Debug, PartialEq, Eq, Structural)]
pub struct Config {
    /// Whether the thermal camera takes part in a capture session.
    pub thermal_camera: bool,
}

/// A telemetry event emitted once at a session milestone.
#[derive(Clone, Copy, Debug, PartialEq, Eq, Structural)]
pub enum Telemetry {
    /// First sharp iris accepted for this side in the session.
    FirstSharpIrisDetected { left: bool },
    /// All objectives achieved.
    BothEyesCaptured,
}

/// One step of the terminal power-down protocol, to be performed in order.
#[derive(Clone, Copy, Debug, PartialEq, Eq, Structural)]
pub enum ShutdownStep {
    PowerDownMelody,
    StoreConfig,
    SyncFilesystem,
    /// The MCU graceful-shutdown command queued on the bus.
    McuShutdown,
    SchedulePoweroff,
    ProcessExit,
}

/// The agents of the broker's roster, named in its fixed polling order.
#[derive(Clone, Copy, Debug, PartialEq, Eq, Structural)]
pub enum AgentId {
    IrEyeCamera,
    IrFaceCamera,
    RgbCamera,
    ThermalCamera,
    MegaAgentOne,
    MegaAgentTwo,
    IrAutoFocus,
    IrAutoExposure,
    EyeTracker,
    EyePidController,
    Mirror,
    Distance,
    QrCode,
    ImageUploader,
    ImageNotary,
}

/// The broker's polling order, leaves first: cameras, then the model
/// hosts, then the derived agents, then the actuators, then the notary.
/// Each polling pass inspects every enabled agent once, in this order, and
/// takes at most one message from each; that is the only priority
/// guarantee.
pub open spec fn spec_poll_order() -> Seq<AgentId> {
    seq![
        AgentId::IrEyeCamera,
        AgentId::IrFaceCamera,
        AgentId::RgbCamera,
        AgentId::ThermalCamera,
        AgentId::MegaAgentOne,
        AgentId::MegaAgentTwo,
        AgentId::IrAutoFocus,
        AgentId::IrAutoExposure,
        AgentId::EyeTracker,
        AgentId::EyePidController,
        AgentId::Mirror,
        AgentId::Distance,
        AgentId::QrCode,
        AgentId::ImageUploader,
        AgentId::ImageNotary,
    ]
}

/// The order in which the surrounding loop polls the agents for ready
/// outputs.
pub fn poll_order() -> (r: Vec<AgentId>)
    ensures
        r@ == spec_poll_order(),
{
    let mut order: Vec<AgentId> = Vec::new();
    order.push(AgentId::IrEyeCamera);
    order.push(AgentId::IrFaceCamera);
    order.push(AgentId::RgbCamera);
    order.push(AgentId::ThermalCamera);
    order.push(AgentId::MegaAgentOne);
    order.push(AgentId::MegaAgentTwo);
    order.push(AgentId::IrAutoFocus);
    order.push(AgentId::IrAutoExposure);
    order.push(AgentId::EyeTracker);
    order.push(AgentId::EyePidController);
    order.push(AgentId::Mirror);
    order.push(AgentId::Distance);
    order.push(AgentId::QrCode);
    order.push(AgentId::ImageUploader);
    order.push(AgentId::ImageNotary);
    proof {
        assert(order@ =~= spec_poll_order());
    }
    order
}

/// The main orb broker state.
pub struct Orb {
    // Agent cells, leaves first: this declaration order is the broker's
    // polling order.
    pub ir_eye_camera: AgentCell<IrCommand>,
    pub ir_face_camera: AgentCell<IrCommand>,
    pub rgb_camera: AgentCell<RgbCommand>,
    pub thermal_camera: AgentCell<ThermalCommand>,
    pub mega_agent_one: AgentCell<ir_net::EstimateRequest>,
    pub mega_agent_two: AgentCell<MegaAgentTwoRequest>,
    pub ir_auto_focus: AgentCell<AutoFocusInput>,
    pub ir_auto_exposure: AgentCell<AutoExposureInput>,
    pub eye_tracker: AgentCell<EyeTrackerInput>,
    pub eye_pid_controller: AgentCell<EyePidInput>,
    pub mirror: AgentCell<mirror::Command>,
    pub distance: AgentCell<DistanceInput>,
    pub qr_code: AgentCell<QrCodeInput>,
    pub image_uploader: AgentCell<UploaderInput>,
    pub image_notary: AgentCell<NotaryInput>,

    pub config: Config,
    pub main_mcu: mcu::Bus,
    /// Requests to the LED engine, in order of emission.
    pub led_log: Vec<led::Event>,
    /// One-shot session milestones.
    pub telemetry: Vec<Telemetry>,
    pub focus_matrix_code: bool,
    pub mirror_point: Option<mirror::Point>,
    pub mirror_offset: Option<mirror::Point>,
    /// Whether color frames go to the landmark model exclusively, or also
    /// to the face-validity model through the fused request.
    pub only_rgb_net_frames: bool,
    pub ir_net_enabled: bool,
    /// Frames sent to the iris model and still awaiting their estimates,
    /// oldest first.
    pub ir_net_frames: VecDeque<IrFrame>,
    pub rgb_net_enabled: bool,
    /// Frames sent to the landmark model and still awaiting their
    /// estimates, oldest first.
    pub rgb_net_frames: VecDeque<RgbFrame>,
    pub calibration: Calibration,
    pub target_left_eye: bool,
    pub ir_led_wavelength: IrLed,
    pub ir_led_duration: u16,
    pub ir_auto_focus_use_rgb_net_estimate: bool,
    /// Estimates that arrived with no matching pending frame.
    pub pairing_misses: u64,
}

/// The exposure interval auto-exposure may use under this wavelength,
/// inclusive on both ends, in microseconds.
pub open spec fn spec_exposure_range(w: IrLed) -> (u16, u16) {
    if w is L740 {
        (IR_LED_MIN_DURATION, IR_LED_MAX_DURATION_740NM)
    } else {
        (IR_LED_MIN_DURATION, IR_LED_MAX_DURATION)
    }
}

/// The MCU command that sets the illuminator duration: the legacy 740 nm
/// band has a command path of its own.
pub open spec fn spec_duration_cmd(w: IrLed, d: u16) -> mcu::Input {
    if w is L740 {
        mcu::Input::IrLedDuration740nm(d)
    } else {
        mcu::Input::IrLedDuration(d)
    }
}

/// The MCU commands `enable_ir_led` issues from a facade whose wavelength is
/// `w` and duration `d`: defaults are applied only where nothing is active.
pub open spec fn enable_ir_led_cmds(w: IrLed, d: u16) -> Seq<mcu::Input> {
    (if w is Off {
        seq![mcu::Input::IrLed(DEFAULT_IR_LED_WAVELENGTH)]
    } else {
        Seq::<mcu::Input>::empty()
    }) + (if d == 0 {
        seq![
            spec_duration_cmd(
                if w is Off {
                    DEFAULT_IR_LED_WAVELENGTH
                } else {
                    w
                },
                DEFAULT_IR_LED_DURATION,
            ),
        ]
    } else {
        Seq::<mcu::Input>::empty()
    })
}

/// A counter bumped once, stopping at its ceiling.
pub open spec fn bump(c: u64) -> u64 {
    if c == u64::MAX {
        c
    } else {
        (c + 1) as u64
    }
}

/// Whether some pending IR frame carries this source timestamp.
pub open spec fn ir_has_match(q: Seq<IrFrame>, ts: u64) -> bool {
    exists|i: int| 0 <= i < q.len() && q[i].source_ts == ts
}

/// Index of the oldest pending IR frame with this source timestamp.
pub open spec fn ir_first_match(q: Seq<IrFrame>, ts: u64) -> int
    decreases q.len(),
{
    if q.len() == 0 {
        0
    } else if q[0].source_ts == ts {
        0
    } else {
        1 + ir_first_match(q.drop_first(), ts)
    }
}

/// Whether some pending RGB frame carries this source timestamp.
pub open spec fn rgb_has_match(q: Seq<RgbFrame>, ts: u64) -> bool {
    exists|i: int| 0 <= i < q.len() && q[i].source_ts == ts
}

/// Index of the oldest pending RGB frame with this source timestamp.
pub open spec fn rgb_first_match(q: Seq<RgbFrame>, ts: u64) -> int
    decreases q.len(),
{
    if q.len() == 0 {
        0
    } else if q[0].source_ts == ts {
        0
    } else {
        1 + rgb_first_match(q.drop_first(), ts)
    }
}

/// A position whose predecessors all mismatch and which itself matches is
/// the first match.
proof fn lemma_ir_first_match_is(q: Seq<IrFrame>, ts: u64, k: int)
    requires
        0 <= k < q.len(),
        q[k].source_ts == ts,
        forall|i: int| 0 <= i < k ==> q[i].source_ts != ts,
    ensures
        ir_has_match(q, ts),
        ir_first_match(q, ts) == k,
    decreases k,
{
    if k > 0 {
        lemma_ir_first_match_is(q.drop_first(), ts, k - 1);
    }
}

/// A position whose predecessors all mismatch and which itself matches is
/// the first match.
proof fn lemma_rgb_first_match_is(q: Seq<RgbFrame>, ts: u64, k: int)
    requires
        0 <= k < q.len(),
        q[k].source_ts == ts,
        forall|i: int| 0 <= i < k ==> q[i].source_ts != ts,
    ensures
        rgb_has_match(q, ts),
        rgb_first_match(q, ts) == k,
    decreases k,
{
    if k > 0 {
        lemma_rgb_first_match_is(q.drop_first(), ts, k - 1);
    }
}

/// An output of the model host that runs the landmark and face-validity
/// models.
#[derive(Clone, Copy, Debug)]
pub enum MegaAgentTwoOutput {
    RgbNet(rgb_net::Output),
    FaceIdentifier(face_identifier::Output),
    /// Both models answered on the same frame in one fused pass.
    FusionRgbNetFaceIdentifier {
        rgb_net: rgb_net::EstimateOutput,
        face_identifier: face_identifier::IsValidOutput,
    },
    /// The fused pass failed partway; whichever outputs exist are delivered
    /// in decision order.
    FusionError {
        rgb_net: Option<rgb_net::Output>,
        face_identifier: Option<face_identifier::Output>,
    },
}

/// One ready agent output, as the broker's polling pass hands it to the
/// pre-dispatch wiring. Frames carry their own source timestamps; model
/// outputs carry the timestamp chained from the frame that produced them.
#[derive(Clone, Copy, Debug)]
pub enum Event {
    IrEyeFrame(IrFrame),
    IrFaceFrame(IrFrame),
    RgbCameraFrame(RgbFrame),
    ThermalCameraFrame(ThermalFrame),
    MegaAgentOne { source_ts: u64, output: ir_net::Output },
    MegaAgentTwo { source_ts: u64, output: MegaAgentTwoOutput },
    IrAutoFocus { focus_milli: i64 },
    IrAutoExposure { gain_milli: i64, exposure_us: u16 },
    EyeTracker { point: mirror::Point },
    EyePidController { offset: mirror::Point },
    Mirror { x: i64, y: i64 },
    /// A GPS fix drained from the MCU broadcast, in millionths of a degree.
    Gps { latitude_microdeg: i64, longitude_microdeg: i64 },
}

impl Orb {
    /// Pending-frame queues bounded by the model inbox capacities, a
    /// consistent MCU bus, and well-formed agent cells.
    pub open spec fn wf(self) -> bool {
        &&& self.ir_net_frames@.len() <= IR_NET_INBOX_CAPACITY
        &&& self.rgb_net_frames@.len() <= RGB_NET_INBOX_CAPACITY
        &&& (self.mirror_point matches Some(p) ==> p.in_range())
        &&& (self.mirror_offset matches Some(p) ==> p.in_range())
        &&& self.main_mcu.wf()
        &&& self.ir_eye_camera.wf()
        &&& self.ir_face_camera.wf()
        &&& self.rgb_camera.wf()
        &&& self.thermal_camera.wf()
        &&& self.mega_agent_one.wf()
        &&& self.mega_agent_two.wf()
        &&& self.ir_auto_focus.wf()
        &&& self.ir_auto_exposure.wf()
        &&& self.eye_tracker.wf()
        &&& self.eye_pid_controller.wf()
        &&& self.mirror.wf()
        &&& self.distance.wf()
        &&& self.qr_code.wf()
        &&& self.image_uploader.wf()
        &&& self.image_notary.wf()
    }

    /// A fresh facade: every agent disabled, queues empty, actuators at
    /// their defaults.
    pub fn new(calibration: Calibration, config: Config) -> (r: Orb)
        ensures
            r.wf(),
            !r.ir_eye_camera.enabled,
            !r.ir_face_camera.enabled,
            !r.rgb_camera.enabled,
            !r.thermal_camera.enabled,
            !r.mega_agent_one.enabled,
            !r.mega_agent_two.enabled,
            !r.ir_auto_focus.enabled,
            !r.ir_auto_exposure.enabled,
            !r.eye_tracker.enabled,
            !r.eye_pid_controller.enabled,
            !r.mirror.enabled,
            !r.distance.enabled,
            !r.qr_code.enabled,
            !r.image_uploader.enabled,
            !r.image_notary.enabled,
            r.config == config,
            r.main_mcu.sent@ == Seq::<mcu::Input>::empty(),
            r.main_mcu.log_mark is None,
            r.led_log@ == Seq::<led::Event>::empty(),
            r.telemetry@ == Seq::<Telemetry>::empty(),
            !r.focus_matrix_code,
            r.mirror_point is None,
            r.mirror_offset is None,
            r.only_rgb_net_frames,
            !r.ir_net_enabled,
            r.ir_net_frames@ == Seq::<IrFrame>::empty(),
            !r.rgb_net_enabled,
            r.rgb_net_frames@ == Seq::<RgbFrame>::empty(),
            r.calibration == calibration,
            !r.target_left_eye,
            r.ir_led_wavelength == DEFAULT_IR_LED_WAVELENGTH,
            r.ir_led_duration == DEFAULT_IR_LED_DURATION,
            r.ir_auto_focus_use_rgb_net_estimate,
            r.pairing_misses == 0,
    {
        Orb {
            ir_eye_camera: AgentCell::new(),
            ir_face_camera: AgentCell::new(),
            rgb_camera: AgentCell::new(),
            thermal_camera: AgentCell::new(),
            mega_agent_one: AgentCell::new(),
            mega_agent_two: AgentCell::new(),
            ir_auto_focus: AgentCell::new(),
            ir_auto_exposure: AgentCell::new(),
            eye_tracker: AgentCell::new(),
            eye_pid_controller: AgentCell::new(),
            mirror: AgentCell::new(),
            distance: AgentCell::new(),
            qr_code: AgentCell::new(),
            image_uploader: AgentCell::new(),
            image_notary: AgentCell::new(),
            config,
            main_mcu: mcu::Bus::new(),
            led_log: Vec::new(),
            telemetry: Vec::new(),
            focus_matrix_code: false,
            mirror_point: None,
            mirror_offset: None,
            only_rgb_net_frames: true,
            ir_net_enabled: false,
            ir_net_frames: VecDeque::new(),
            rgb_net_enabled: false,
            rgb_net_frames: VecDeque::new(),
            calibration,
            target_left_eye: false,
            ir_led_wavelength: DEFAULT_IR_LED_WAVELENGTH,
            ir_led_duration: DEFAULT_IR_LED_DURATION,
            ir_auto_focus_use_rgb_net_estimate: true,
            pairing_misses: 0,
        }
    }

    /// Gets the active IR illuminator wavelength.
    pub fn ir_wavelength(&self) -> (r: IrLed)
        ensures
            r == self.ir_led_wavelength,
    {
        self.ir_led_wavelength
    }

    /// The exposure interval auto-exposure may use under the active
    /// wavelength.
    pub fn exposure_range(&self) -> (r: (u16, u16))
        ensures
            r == spec_exposure_range(self.ir_led_wavelength),
    {
        match self.ir_led_wavelength {
            IrLed::L740 => (IR_LED_MIN_DURATION, IR_LED_MAX_DURATION_740NM),
            _ => (IR_LED_MIN_DURATION, IR_LED_MAX_DURATION),
        }
    }

    /// Sets the active IR illuminator wavelength: one MCU command, and —
    /// with auto-exposure running — the matching exposure interval, so that
    /// illuminator and exposure never diverge.
    pub fn set_ir_wavelength(&mut self, ir_led_wavelength: IrLed)
        requires
            old(self).wf(),
        ensures
            final(self).wf(),
            final(self).ir_led_wavelength == ir_led_wavelength,
            final(self).main_mcu.sent@ == old(self).main_mcu.sent@.push(
                mcu::Input::IrLed(ir_led_wavelength),
            ),
            final(self).main_mcu.log_mark == old(self).main_mcu.log_mark,
            old(self).ir_auto_exposure.enabled ==> {
                let range = spec_exposure_range(ir_led_wavelength);
                &&& final(self).ir_auto_exposure.enabled
                &&& final(self).ir_auto_exposure.inbox@ == old(self).ir_auto_exposure.inbox@.push(
                    AutoExposureInput::SetExposureRange(range.0, range.1),
                )
                &&& final(self).ir_auto_exposure.history@ == old(
                    self,
                ).ir_auto_exposure.history@.push(AutoExposureInput::SetExposureRange(range.0, range.1))
            },
            !old(self).ir_auto_exposure.enabled ==> final(self).ir_auto_exposure == old(
                self,
            ).ir_auto_exposure,
            *final(self) == (Orb {
                ir_led_wavelength,
                main_mcu: final(self).main_mcu,
                ir_auto_exposure: final(self).ir_auto_exposure,
                ..*old(self)
            }),
            set_ir_wavelength_rel(*old(self), *final(self), ir_led_wavelength),
    {
        self.main_mcu.send(mcu::Input::IrLed(ir_led_wavelength));
        self.ir_led_wavelength = ir_led_wavelength;
        let range = self.exposure_range();
        if self.ir_auto_exposure.is_enabled() {
            self.ir_auto_exposure.send_now(AutoExposureInput::SetExposureRange(range.0, range.1));
        }
    }

    /// Sets the active IR illuminator PWM duration, in microseconds; the
    /// legacy 740 nm band takes its own MCU command path.
    pub fn set_ir_duration(&mut self, ir_led_duration: u16)
        requires
            old(self).wf(),
        ensures
            final(self).wf(),
            final(self).ir_led_duration == ir_led_duration,
            final(self).main_mcu.sent@ == old(self).main_mcu.sent@.push(
                spec_duration_cmd(old(self).ir_led_wavelength, ir_led_duration),
            ),
            final(self).main_mcu.log_mark == old(self).main_mcu.log_mark,
            *final(self) == (Orb {
                ir_led_duration,
                main_mcu: final(self).main_mcu,
                ..*old(self)
            }),
    {
        match self.ir_led_wavelength {
            IrLed::L740 => {
                self.main_mcu.send_now(mcu::Input::IrLedDuration740nm(ir_led_duration));
            },
            _ => {
                self.main_mcu.send_now(mcu::Input::IrLedDuration(ir_led_duration));
            },
        }
        self.ir_led_duration = ir_led_duration;
    }

    /// Enables the IR illuminator with default settings; active settings
    /// are left as they are.
    pub fn enable_ir_led(&mut self)
        requires
            old(self).wf(),
        ensures
            final(self).wf(),
            final(self).ir_led_wavelength == (if old(self).ir_led_wavelength is Off {
                DEFAULT_IR_LED_WAVELENGTH
            } else {
                old(self).ir_led_wavelength
            }),
            final(self).ir_led_duration == (if old(self).ir_led_duration == 0 {
                DEFAULT_IR_LED_DURATION
            } else {
                old(self).ir_led_duration
            }),
            final(self).main_mcu.sent@ == old(self).main_mcu.sent@ + enable_ir_led_cmds(
                old(self).ir_led_wavelength,
                old(self).ir_led_duration,
            ),
            final(self).main_mcu.log_mark == old(self).main_mcu.log_mark,
            *final(self) == (Orb {
                ir_led_wavelength: final(self).ir_led_wavelength,
                ir_led_duration: final(self).ir_led_duration,
                main_mcu: final(self).main_mcu,
                ir_auto_exposure: final(self).ir_auto_exposure,
                ..*old(self)
            }),
            final(self).ir_auto_exposure.enabled == old(self).ir_auto_exposure.enabled,
            old(self).ir_auto_exposure.inbox@.is_prefix_of(final(self).ir_auto_exposure.inbox@),
    {
        if matches!(self.ir_led_wavelength, IrLed::Off) {
            self.set_ir_wavelength(DEFAULT_IR_LED_WAVELENGTH);
        }
        if self.ir_led_duration == 0 {
            self.set_ir_duration(DEFAULT_IR_LED_DURATION);
        }
        proof {
            assert(self.main_mcu.sent@ =~= old(self).main_mcu.sent@ + enable_ir_led_cmds(
                old(self).ir_led_wavelength,
                old(self).ir_led_duration,
            ));
        }
    }

    /// Disables the IR illuminator: wavelength off, duration zero.
    pub fn disable_ir_led(&mut self)
        requires
            old(self).wf(),
        ensures
            final(self).wf(),
            final(self).ir_led_wavelength is Off,
            final(self).ir_led_duration == 0,
            final(self).main_mcu.sent@ == old(self).main_mcu.sent@.push(
                mcu::Input::IrLed(IrLed::Off),
            ).push(mcu::Input::IrLedDuration(0)),
            final(self).main_mcu.log_mark == old(self).main_mcu.log_mark,
            *final(self) == (Orb {
                ir_led_wavelength: IrLed::Off,
                ir_led_duration: 0,
                main_mcu: final(self).main_mcu,
                ir_auto_exposure: final(self).ir_auto_exposure,
                ..*old(self)
            }),
            final(self).ir_auto_exposure.enabled == old(self).ir_auto_exposure.enabled,
            !old(self).ir_auto_exposure.enabled ==> final(self).ir_auto_exposure == old(
                self,
            ).ir_auto_exposure,
    {
        self.set_ir_wavelength(IrLed::Off);
        self.set_ir_duration(0);
    }

    /// Returns `true` if the orb currently targets the left eye.
    pub fn target_left_eye(&self) -> (r: bool)
        ensures
            r == self.target_left_eye,
    {
        self.target_left_eye
    }

    /// Targets the left eye if `target_left_eye` is `true`, the right eye
    /// otherwise, telling the PID controller to restart its search.
    pub fn set_target_left_eye(&mut self, target_left_eye: bool)
        requires
            old(self).wf(),
        ensures
            final(self).wf(),
            final(self).target_left_eye == target_left_eye,
            old(self).eye_pid_controller.enabled ==> {
                &&& final(self).eye_pid_controller.enabled
                &&& final(self).eye_pid_controller.inbox@ == old(
                    self,
                ).eye_pid_controller.inbox@.push(EyePidInput::SwitchEye)
            },
            !old(self).eye_pid_controller.enabled ==> final(self).eye_pid_controller == old(
                self,
            ).eye_pid_controller,
            *final(self) == (Orb {
                target_left_eye,
                eye_pid_controller: final(self).eye_pid_controller,
                ..*old(self)
            }),
    {
        self.target_left_eye = target_left_eye;
        if self.eye_pid_controller.is_enabled() {
            self.eye_pid_controller.send_now(EyePidInput::SwitchEye);
        }
    }

    /// Returns the mirror calibration.
    pub fn calibration(&self) -> (r: &Calibration)
        ensures
            r == self.calibration,
    {
        &self.calibration
    }

    /// Updates the mirror calibration and asks the mirror actuator to
    /// reload it.
    pub fn recalibrate(&mut self, calibration: Calibration)
        requires
            old(self).wf(),
            old(self).mirror.enabled,
        ensures
            final(self).wf(),
            final(self).calibration == calibration,
            final(self).mirror.enabled,
            final(self).mirror.inbox@ == old(self).mirror.inbox@.push(
                mirror::Command::Recalibrate(calibration),
            ),
            final(self).mirror.history@ == old(self).mirror.history@.push(
                mirror::Command::Recalibrate(calibration),
            ),
            *final(self) == (Orb {
                calibration,
                mirror: final(self).mirror,
                ..*old(self)
            }),
    {
        self.calibration = calibration;
        self.mirror.send_now(mirror::Command::Recalibrate(calibration));
    }

    /// Returns `true` if the iris model is running and fed.
    pub fn is_ir_net_enabled(&self) -> (r: bool)
        ensures
            r == (self.ir_net_enabled && self.mega_agent_one.enabled),
    {
        self.ir_net_enabled && self.mega_agent_one.is_enabled()
    }

    /// Returns `true` if the landmark model is running and fed.
    pub fn is_rgb_net_enabled(&self) -> (r: bool)
        ensures
            r == (self.rgb_net_enabled && self.mega_agent_two.enabled),
    {
        self.rgb_net_enabled && self.mega_agent_two.is_enabled()
    }

    /// Enables the iris model, starting its host if needed.
    pub fn enable_ir_net(&mut self)
        requires
            old(self).wf(),
        ensures
            final(self).wf(),
            final(self).ir_net_enabled,
            final(self).mega_agent_one.enabled,
            final(self).mega_agent_one.inbox@ == old(self).mega_agent_one.inbox@,
            final(self).mega_agent_one.history@ == old(self).mega_agent_one.history@,
            *final(self) == (Orb {
                ir_net_enabled: true,
                mega_agent_one: final(self).mega_agent_one,
                ..*old(self)
            }),
    {
        self.mega_agent_one.try_enable();
        self.ir_net_enabled = true;
    }

    /// Enables the landmark model, starting its host if needed, and selects
    /// whether color frames go to it exclusively.
    pub fn enable_rgb_net(&mut self, only_rgb_net_frames: bool)
        requires
            old(self).wf(),
        ensures
            final(self).wf(),
            final(self).rgb_net_enabled,
            final(self).only_rgb_net_frames == only_rgb_net_frames,
            final(self).mega_agent_two.enabled,
            final(self).mega_agent_two.inbox@ == old(self).mega_agent_two.inbox@,
            final(self).mega_agent_two.history@ == old(self).mega_agent_two.history@,
            *final(self) == (Orb {
                rgb_net_enabled: true,
                only_rgb_net_frames,
                mega_agent_two: final(self).mega_agent_two,
                ..*old(self)
            }),
    {
        self.mega_agent_two.try_enable();
        self.rgb_net_enabled = true;
        self.only_rgb_net_frames = only_rgb_net_frames;
    }

    /// Disables the iris model; its host keeps running.
    pub fn disable_ir_net(&mut self)
        ensures
            *final(self) == (Orb { ir_net_enabled: false, ..*old(self) }),
    {
        self.ir_net_enabled = false;
    }

    /// Disables the landmark model and routes color frames back to it
    /// exclusively for the next enablement; its host keeps running.
    pub fn disable_rgb_net(&mut self)
        ensures
            *final(self) == (Orb {
                rgb_net_enabled: false,
                only_rgb_net_frames: true,
                ..*old(self)
            }),
    {
        self.only_rgb_net_frames = true;
        self.rgb_net_enabled = false;
    }

    /// Sets fisheye undistortion parameters for the RGB pipeline, informing
    /// whichever of the eye tracker and the RGB camera is running.
    pub fn set_fisheye(&mut self, rgb_width: u32, rgb_height: u32, undistortion_enabled: bool)
        requires
            old(self).wf(),
        ensures
            final(self).wf(),
            old(self).eye_tracker.enabled ==> {
                &&& final(self).eye_tracker.enabled
                &&& final(self).eye_tracker.inbox@ == old(self).eye_tracker.inbox@.push(
                    EyeTrackerInput::Fisheye(Some((rgb_width, rgb_height))),
                )
            },
            !old(self).eye_tracker.enabled ==> final(self).eye_tracker == old(self).eye_tracker,
            old(self).rgb_camera.enabled ==> {
                &&& final(self).rgb_camera.enabled
                &&& final(self).rgb_camera.inbox@ == old(self).rgb_camera.inbox@.push(
                    RgbCommand::Fisheye(rgb_width, rgb_height, undistortion_enabled),
                )
            },
            !old(self).rgb_camera.enabled ==> final(self).rgb_camera == old(self).rgb_camera,
            *final(self) == (Orb {
                eye_tracker: final(self).eye_tracker,
                rgb_camera: final(self).rgb_camera,
                ..*old(self)
            }),
    {
        if self.eye_tracker.is_enabled() {
            self.eye_tracker.send_now(EyeTrackerInput::Fisheye(Some((rgb_width, rgb_height))));
        }
        if self.rgb_camera.is_enabled() {
            self.rgb_camera.send_now(RgbCommand::Fisheye(rgb_width, rgb_height, undistortion_enabled));
        }
    }

    /// The terminal power-down protocol: the ordered steps the surrounding
    /// program must perform, with the MCU graceful-shutdown command already
    /// queued on the bus.
    pub fn shutdown(&mut self) -> (steps: Vec<ShutdownStep>)
        requires
            old(self).wf(),
        ensures
            final(self).wf(),
            steps@ == seq![
                ShutdownStep::PowerDownMelody,
                ShutdownStep::StoreConfig,
                ShutdownStep::SyncFilesystem,
                ShutdownStep::McuShutdown,
                ShutdownStep::SchedulePoweroff,
                ShutdownStep::ProcessExit,
            ],
            final(self).main_mcu.sent@ == old(self).main_mcu.sent@.push(
                mcu::Input::Shutdown(GRACEFUL_SHUTDOWN_MAX_DELAY_SECONDS),
            ),
            *final(self) == (Orb { main_mcu: final(self).main_mcu, ..*old(self) }),
    {
        self.main_mcu.send(mcu::Input::Shutdown(GRACEFUL_SHUTDOWN_MAX_DELAY_SECONDS));
        let mut steps: Vec<ShutdownStep> = Vec::new();
        steps.push(ShutdownStep::PowerDownMelody);
        steps.push(ShutdownStep::StoreConfig);
        steps.push(ShutdownStep::SyncFilesystem);
        steps.push(ShutdownStep::McuShutdown);
        steps.push(ShutdownStep::SchedulePoweroff);
        steps.push(ShutdownStep::ProcessExit);
        proof {
            assert(steps@ =~= seq![
                ShutdownStep::PowerDownMelody,
                ShutdownStep::StoreConfig,
                ShutdownStep::SyncFilesystem,
                ShutdownStep::McuShutdown,
                ShutdownStep::SchedulePoweroff,
                ShutdownStep::ProcessExit,
            ]);
        }
        steps
    }
}

impl Orb {
    /// Starts the eye IR camera: external trigger on, shared frame rate
    /// asserted, illuminator defaults applied, camera agent running.
    pub fn start_ir_eye_camera(&mut self)
        requires
            old(self).wf(),
            !old(self).ir_eye_camera.enabled,
        ensures
            final(self).wf(),
            final(self).ir_eye_camera.enabled,
            final(self).ir_eye_camera.inbox@ == seq![IrCommand::Start],
            final(self).ir_eye_camera.history@ == old(self).ir_eye_camera.history@.push(
                IrCommand::Start,
            ),
            final(self).main_mcu.sent@ == old(self).main_mcu.sent@ + seq![
                mcu::Input::TriggeringIrEyeCamera(true),
                mcu::Input::FrameRate(IR_CAMERA_FRAME_RATE),
            ] + enable_ir_led_cmds(old(self).ir_led_wavelength, old(self).ir_led_duration),
            final(self).main_mcu.log_mark == old(self).main_mcu.log_mark,
            final(self).ir_led_wavelength == (if old(self).ir_led_wavelength is Off {
                DEFAULT_IR_LED_WAVELENGTH
            } else {
                old(self).ir_led_wavelength
            }),
            final(self).ir_led_duration == (if old(self).ir_led_duration == 0 {
                DEFAULT_IR_LED_DURATION
            } else {
                old(self).ir_led_duration
            }),
            final(self).ir_auto_exposure.enabled == old(self).ir_auto_exposure.enabled,
            old(self).ir_auto_exposure.inbox@.is_prefix_of(final(self).ir_auto_exposure.inbox@),
            *final(self) == (Orb {
                ir_eye_camera: final(self).ir_eye_camera,
                main_mcu: final(self).main_mcu,
                ir_auto_exposure: final(self).ir_auto_exposure,
                ir_led_wavelength: final(self).ir_led_wavelength,
                ir_led_duration: final(self).ir_led_duration,
                ..*old(self)
            }),
    {
        self.main_mcu.send(mcu::Input::TriggeringIrEyeCamera(true));
        self.main_mcu.send(mcu::Input::FrameRate(IR_CAMERA_FRAME_RATE));
        self.ir_eye_camera.enable();
        self.enable_ir_led();
        self.ir_eye_camera.send_now(IrCommand::Start);
        proof {
            assert(self.ir_eye_camera.inbox@ =~= seq![IrCommand::Start]);
            assert(self.main_mcu.sent@ =~= old(self).main_mcu.sent@ + seq![
                mcu::Input::TriggeringIrEyeCamera(true),
                mcu::Input::FrameRate(IR_CAMERA_FRAME_RATE),
            ] + enable_ir_led_cmds(old(self).ir_led_wavelength, old(self).ir_led_duration));
        }
    }

    /// Stops the eye IR camera, returning its command log. The illuminator
    /// is switched off with it unless the face camera still needs light.
    /// The caller lets one or two residual frames drain — the stop delay —
    /// before performing the trigger-off command.
    pub fn stop_ir_eye_camera(&mut self) -> (log: Vec<IrCommand>)
        requires
            old(self).wf(),
            old(self).ir_eye_camera.enabled,
        ensures
            final(self).wf(),
            log@ == old(self).ir_eye_camera.history@,
            !final(self).ir_eye_camera.enabled,
            final(self).ir_eye_camera.inbox@ == Seq::<IrCommand>::empty(),
            final(self).ir_eye_camera.history@ == Seq::<IrCommand>::empty(),
            final(self).main_mcu.sent@ == old(self).main_mcu.sent@ + (if !old(
                self,
            ).ir_face_camera.enabled {
                seq![mcu::Input::IrLed(IrLed::Off), mcu::Input::IrLedDuration(0)]
            } else {
                Seq::<mcu::Input>::empty()
            }) + seq![mcu::Input::TriggeringIrEyeCamera(false)],
            final(self).main_mcu.log_mark == old(self).main_mcu.log_mark,
            final(self).ir_led_wavelength == (if !old(self).ir_face_camera.enabled {
                IrLed::Off
            } else {
                old(self).ir_led_wavelength
            }),
            final(self).ir_led_duration == (if !old(self).ir_face_camera.enabled {
                0u16
            } else {
                old(self).ir_led_duration
            }),
            final(self).ir_auto_exposure.enabled == old(self).ir_auto_exposure.enabled,
            !old(self).ir_auto_exposure.enabled ==> final(self).ir_auto_exposure == old(
                self,
            ).ir_auto_exposure,
            *final(self) == (Orb {
                ir_eye_camera: final(self).ir_eye_camera,
                main_mcu: final(self).main_mcu,
                ir_auto_exposure: final(self).ir_auto_exposure,
                ir_led_wavelength: final(self).ir_led_wavelength,
                ir_led_duration: final(self).ir_led_duration,
                ..*old(self)
            }),
    {
        let log = self.ir_eye_camera.take_history();
        self.ir_eye_camera.disable();
        if !self.ir_face_camera.is_enabled() {
            self.disable_ir_led();
        }
        self.main_mcu.send(mcu::Input::TriggeringIrEyeCamera(false));
        proof {
            assert(self.main_mcu.sent@ =~= old(self).main_mcu.sent@ + (if !old(
                self,
            ).ir_face_camera.enabled {
                seq![mcu::Input::IrLed(IrLed::Off), mcu::Input::IrLedDuration(0)]
            } else {
                Seq::<mcu::Input>::empty()
            }) + seq![mcu::Input::TriggeringIrEyeCamera(false)]);
        }
        log
    }

    /// Starts the face IR camera, mirroring the eye camera start-up.
    pub fn start_ir_face_camera(&mut self)
        requires
            old(self).wf(),
            !old(self).ir_face_camera.enabled,
        ensures
            final(self).wf(),
            final(self).ir_face_camera.enabled,
            final(self).ir_face_camera.inbox@ == seq![IrCommand::Start],
            final(self).ir_face_camera.history@ == old(self).ir_face_camera.history@.push(
                IrCommand::Start,
            ),
            final(self).main_mcu.sent@ == old(self).main_mcu.sent@ + seq![
                mcu::Input::TriggeringIrFaceCamera(true),
                mcu::Input::FrameRate(IR_CAMERA_FRAME_RATE),
            ] + enable_ir_led_cmds(old(self).ir_led_wavelength, old(self).ir_led_duration),
            final(self).main_mcu.log_mark == old(self).main_mcu.log_mark,
            final(self).ir_led_wavelength == (if old(self).ir_led_wavelength is Off {
                DEFAULT_IR_LED_WAVELENGTH
            } else {
                old(self).ir_led_wavelength
            }),
            final(self).ir_led_duration == (if old(self).ir_led_duration == 0 {
                DEFAULT_IR_LED_DURATION
            } else {
                old(self).ir_led_duration
            }),
            final(self).ir_auto_exposure.enabled == old(self).ir_auto_exposure.enabled,
            *final(self) == (Orb {
                ir_face_camera: final(self).ir_face_camera,
                main_mcu: final(self).main_mcu,
                ir_auto_exposure: final(self).ir_auto_exposure,
                ir_led_wavelength: final(self).ir_led_wavelength,
                ir_led_duration: final(self).ir_led_duration,
                ..*old(self)
            }),
    {
        self.main_mcu.send(mcu::Input::TriggeringIrFaceCamera(true));
        self.main_mcu.send(mcu::Input::FrameRate(IR_CAMERA_FRAME_RATE));
        self.ir_face_camera.enable();
        self.enable_ir_led();
        self.ir_face_camera.send_now(IrCommand::Start);
        proof {
            assert(self.ir_face_camera.inbox@ =~= seq![IrCommand::Start]);
            assert(self.main_mcu.sent@ =~= old(self).main_mcu.sent@ + seq![
                mcu::Input::TriggeringIrFaceCamera(true),
                mcu::Input::FrameRate(IR_CAMERA_FRAME_RATE),
            ] + enable_ir_led_cmds(old(self).ir_led_wavelength, old(self).ir_led_duration));
        }
    }

    /// Stops the face IR camera, returning its command log; the illuminator
    /// follows unless the eye camera still needs it. The caller lets the
    /// residual frames drain before performing the trigger-off command.
    pub fn stop_ir_face_camera(&mut self) -> (log: Vec<IrCommand>)
        requires
            old(self).wf(),
            old(self).ir_face_camera.enabled,
        ensures
            final(self).wf(),
            log@ == old(self).ir_face_camera.history@,
            !final(self).ir_face_camera.enabled,
            final(self).ir_face_camera.inbox@ == Seq::<IrCommand>::empty(),
            final(self).ir_face_camera.history@ == Seq::<IrCommand>::empty(),
            final(self).main_mcu.sent@ == old(self).main_mcu.sent@ + (if !old(
                self,
            ).ir_eye_camera.enabled {
                seq![mcu::Input::IrLed(IrLed::Off), mcu::Input::IrLedDuration(0)]
            } else {
                Seq::<mcu::Input>::empty()
            }) + seq![mcu::Input::TriggeringIrFaceCamera(false)],
            final(self).main_mcu.log_mark == old(self).main_mcu.log_mark,
            final(self).ir_led_wavelength == (if !old(self).ir_eye_camera.enabled {
                IrLed::Off
            } else {
                old(self).ir_led_wavelength
            }),
            final(self).ir_led_duration == (if !old(self).ir_eye_camera.enabled {
                0u16
            } else {
                old(self).ir_led_duration
            }),
            final(self).ir_auto_exposure.enabled == old(self).ir_auto_exposure.enabled,
            !old(self).ir_auto_exposure.enabled ==> final(self).ir_auto_exposure == old(
                self,
            ).ir_auto_exposure,
            *final(self) == (Orb {
                ir_face_camera: final(self).ir_face_camera,
                main_mcu: final(self).main_mcu,
                ir_auto_exposure: final(self).ir_auto_exposure,
                ir_led_wavelength: final(self).ir_led_wavelength,
                ir_led_duration: final(self).ir_led_duration,
                ..*old(self)
            }),
    {
        let log = self.ir_face_camera.take_history();
        self.ir_face_camera.disable();
        if !self.ir_eye_camera.is_enabled() {
            self.disable_ir_led();
        }
        self.main_mcu.send(mcu::Input::TriggeringIrFaceCamera(false));
        proof {
            assert(self.main_mcu.sent@ =~= old(self).main_mcu.sent@ + (if !old(
                self,
            ).ir_eye_camera.enabled {
                seq![mcu::Input::IrLed(IrLed::Off), mcu::Input::IrLedDuration(0)]
            } else {
                Seq::<mcu::Input>::empty()
            }) + seq![mcu::Input::TriggeringIrFaceCamera(false)]);
        }
        log
    }

    /// Restarts the RGB pipeline so that no stale frame leaks into the next
    /// capture, leaving the camera agent disabled.
    pub fn reset_rgb_camera(&mut self)
        requires
            old(self).wf(),
            !old(self).rgb_camera.enabled,
        ensures
            final(self).wf(),
            !final(self).rgb_camera.enabled,
            final(self).rgb_camera.inbox@ == Seq::<RgbCommand>::empty(),
            final(self).rgb_camera.history@ == old(self).rgb_camera.history@.push(
                RgbCommand::Reset,
            ),
            *final(self) == (Orb { rgb_camera: final(self).rgb_camera, ..*old(self) }),
    {
        self.rgb_camera.enable();
        self.rgb_camera.send_now(RgbCommand::Reset);
        self.rgb_camera.disable();
    }

    /// Starts the RGB camera, routing its frames to the landmark model
    /// exclusively until a fused request is asked for.
    pub fn start_rgb_camera(&mut self)
        requires
            old(self).wf(),
            !old(self).rgb_camera.enabled,
        ensures
            final(self).wf(),
            final(self).only_rgb_net_frames,
            final(self).rgb_camera.enabled,
            final(self).rgb_camera.inbox@ == seq![RgbCommand::Start],
            final(self).rgb_camera.history@ == old(self).rgb_camera.history@.push(
                RgbCommand::Start,
            ),
            *final(self) == (Orb {
                only_rgb_net_frames: true,
                rgb_camera: final(self).rgb_camera,
                ..*old(self)
            }),
    {
        self.only_rgb_net_frames = true;
        self.rgb_camera.enable();
        self.rgb_camera.send_now(RgbCommand::Start);
        proof {
            assert(self.rgb_camera.inbox@ =~= seq![RgbCommand::Start]);
        }
    }

    /// Stops the RGB camera.
    pub fn stop_rgb_camera(&mut self)
        requires
            old(self).wf(),
            old(self).rgb_camera.enabled,
        ensures
            final(self).wf(),
            !final(self).rgb_camera.enabled,
            final(self).rgb_camera.inbox@ == Seq::<RgbCommand>::empty(),
            final(self).rgb_camera.history@ == old(self).rgb_camera.history@.push(
                RgbCommand::Stop,
            ),
            *final(self) == (Orb { rgb_camera: final(self).rgb_camera, ..*old(self) }),
    {
        self.rgb_camera.send_now(RgbCommand::Stop);
        self.rgb_camera.disable();
    }

    /// Starts the thermal camera.
    pub fn start_thermal_camera(&mut self)
        requires
            old(self).wf(),
            !old(self).thermal_camera.enabled,
        ensures
            final(self).wf(),
            final(self).thermal_camera.enabled,
            final(self).thermal_camera.inbox@ == seq![ThermalCommand::Start],
            final(self).thermal_camera.history@ == old(self).thermal_camera.history@.push(
                ThermalCommand::Start,
            ),
            *final(self) == (Orb { thermal_camera: final(self).thermal_camera, ..*old(self) }),
    {
        self.thermal_camera.enable();
        self.thermal_camera.send_now(ThermalCommand::Start);
        proof {
            assert(self.thermal_camera.inbox@ =~= seq![ThermalCommand::Start]);
        }
    }

    /// Stops the thermal camera.
    pub fn stop_thermal_camera(&mut self)
        requires
            old(self).wf(),
            old(self).thermal_camera.enabled,
        ensures
            final(self).wf(),
            !final(self).thermal_camera.enabled,
            final(self).thermal_camera.inbox@ == Seq::<ThermalCommand>::empty(),
            final(self).thermal_camera.history@ == old(self).thermal_camera.history@.push(
                ThermalCommand::Stop,
            ),
            *final(self) == (Orb { thermal_camera: final(self).thermal_camera, ..*old(self) }),
    {
        self.thermal_camera.send_now(ThermalCommand::Stop);
        self.thermal_camera.disable();
    }

    /// Starts the IR auto-exposure agent with this target frame mean, in
    /// thousandths of an intensity level, handing it the exposure interval
    /// of the active wavelength.
    pub fn start_ir_auto_exposure(&mut self, target_mean_milli: i64)
        requires
            old(self).wf(),
            !old(self).ir_auto_exposure.enabled,
        ensures
            final(self).wf(),
            final(self).ir_auto_exposure.enabled,
            final(self).ir_auto_exposure.inbox@ == seq![
                AutoExposureInput::SetTargetMean(target_mean_milli),
                AutoExposureInput::SetExposureRange(
                    spec_exposure_range(old(self).ir_led_wavelength).0,
                    spec_exposure_range(old(self).ir_led_wavelength).1,
                ),
            ],
            *final(self) == (Orb { ir_auto_exposure: final(self).ir_auto_exposure, ..*old(self) }),
    {
        self.ir_auto_exposure.enable();
        let range = self.exposure_range();
        self.ir_auto_exposure.send_now(AutoExposureInput::SetTargetMean(target_mean_milli));
        self.ir_auto_exposure.send_now(AutoExposureInput::SetExposureRange(range.0, range.1));
        proof {
            assert(self.ir_auto_exposure.inbox@ =~= seq![
                AutoExposureInput::SetTargetMean(target_mean_milli),
                AutoExposureInput::SetExposureRange(
                    spec_exposure_range(old(self).ir_led_wavelength).0,
                    spec_exposure_range(old(self).ir_led_wavelength).1,
                ),
            ]);
        }
    }

    /// Stops the user-distance agent.
    pub fn stop_distance(&mut self)
        requires
            old(self).wf(),
            old(self).distance.enabled,
        ensures
            final(self).wf(),
            !final(self).distance.enabled,
            final(self).distance.inbox@ == Seq::<DistanceInput>::empty(),
            final(self).distance.history@ == old(self).distance.history@.push(
                DistanceInput::Reset,
            ),
            *final(self) == (Orb { distance: final(self).distance, ..*old(self) }),
    {
        self.distance.send_now(DistanceInput::Reset);
        self.distance.disable();
    }

    /// Starts the liquid-lens auto-focus agent with this minimal sharpness,
    /// in thousandths, choosing whether it consumes landmark estimates.
    pub fn start_ir_auto_focus(&mut self, min_sharpness_milli: i64, use_rgb_estimate: bool)
        requires
            old(self).wf(),
            !old(self).ir_auto_focus.enabled,
        ensures
            final(self).wf(),
            final(self).ir_auto_focus.enabled,
            final(self).ir_auto_focus_use_rgb_net_estimate == use_rgb_estimate,
            final(self).ir_auto_focus.inbox@ == seq![
                AutoFocusInput::SetMinSharpness(min_sharpness_milli),
            ],
            *final(self) == (Orb {
                ir_auto_focus: final(self).ir_auto_focus,
                ir_auto_focus_use_rgb_net_estimate: use_rgb_estimate,
                ..*old(self)
            }),
    {
        self.ir_auto_focus_use_rgb_net_estimate = use_rgb_estimate;
        self.ir_auto_focus.enable();
        self.ir_auto_focus.send_now(AutoFocusInput::SetMinSharpness(min_sharpness_milli));
        proof {
            assert(self.ir_auto_focus.inbox@ =~= seq![
                AutoFocusInput::SetMinSharpness(min_sharpness_milli),
            ]);
        }
    }

    /// Opens the image notary's per-signup history under an opaque signup
    /// identifier.
    pub fn start_image_notary(&mut self, signup_id: u64, is_opt_in: bool)
        requires
            old(self).wf(),
            !old(self).image_notary.enabled,
        ensures
            final(self).wf(),
            final(self).image_notary.enabled,
            final(self).image_notary.inbox@ == seq![
                NotaryInput::InitializeSignup { signup_id, is_opt_in },
            ],
            *final(self) == (Orb { image_notary: final(self).image_notary, ..*old(self) }),
    {
        self.image_notary.enable();
        self.image_notary.send_now(NotaryInput::InitializeSignup { signup_id, is_opt_in });
        proof {
            assert(self.image_notary.inbox@ =~= seq![
                NotaryInput::InitializeSignup { signup_id, is_opt_in },
            ]);
        }
    }

    /// Stops the auto-focus agent and releases the liquid lens.
    pub fn stop_ir_auto_focus(&mut self)
        requires
            old(self).wf(),
            old(self).ir_auto_focus.enabled,
        ensures
            final(self).wf(),
            !final(self).ir_auto_focus.enabled,
            final(self).ir_auto_focus.inbox@ == Seq::<AutoFocusInput>::empty(),
            final(self).ir_auto_focus.history@ == old(self).ir_auto_focus.history@.push(
                AutoFocusInput::Reset,
            ),
            final(self).main_mcu.sent@ == old(self).main_mcu.sent@.push(
                mcu::Input::LiquidLens(None),
            ),
            final(self).main_mcu.log_mark == old(self).main_mcu.log_mark,
            *final(self) == (Orb {
                ir_auto_focus: final(self).ir_auto_focus,
                main_mcu: final(self).main_mcu,
                ..*old(self)
            }),
    {
        self.ir_auto_focus.send_now(AutoFocusInput::Reset);
        self.main_mcu.send(mcu::Input::LiquidLens(None));
        self.ir_auto_focus.disable();
    }

    /// Stops the eye tracker, yielding the last mirror point it produced.
    pub fn stop_eye_tracker(&mut self) -> (r: Option<mirror::Point>)
        requires
            old(self).wf(),
            old(self).eye_tracker.enabled,
        ensures
            final(self).wf(),
            r == old(self).mirror_point,
            final(self).mirror_point is None,
            !final(self).eye_tracker.enabled,
            final(self).eye_tracker.inbox@ == Seq::<EyeTrackerInput>::empty(),
            final(self).eye_tracker.history@ == old(self).eye_tracker.history@.push(
                EyeTrackerInput::Reset,
            ),
            *final(self) == (Orb {
                eye_tracker: final(self).eye_tracker,
                mirror_point: None,
                ..*old(self)
            }),
    {
        self.eye_tracker.send_now(EyeTrackerInput::Reset);
        self.eye_tracker.disable();
        let r = self.mirror_point;
        self.mirror_point = None;
        r
    }

    /// Stops the eye PID controller, yielding the last mirror offset it
    /// produced.
    pub fn stop_eye_pid_controller(&mut self) -> (r: Option<mirror::Point>)
        requires
            old(self).wf(),
            old(self).eye_pid_controller.enabled,
        ensures
            final(self).wf(),
            r == old(self).mirror_offset,
            final(self).mirror_offset is None,
            !final(self).eye_pid_controller.enabled,
            final(self).eye_pid_controller.inbox@ == Seq::<EyePidInput>::empty(),
            final(self).eye_pid_controller.history@ == old(self).eye_pid_controller.history@.push(
                EyePidInput::Reset,
            ),
            *final(self) == (Orb {
                eye_pid_controller: final(self).eye_pid_controller,
                mirror_offset: None,
                ..*old(self)
            }),
    {
        self.eye_pid_controller.send_now(EyePidInput::Reset);
        self.eye_pid_controller.disable();
        let r = self.mirror_offset;
        self.mirror_offset = None;
        r
    }

    /// Stops the mirror actuator, returning its command log.
    pub fn stop_mirror(&mut self) -> (log: Vec<mirror::Command>)
        requires
            old(self).wf(),
            old(self).mirror.enabled,
        ensures
            final(self).wf(),
            log@ == old(self).mirror.history@,
            !final(self).mirror.enabled,
            final(self).mirror.inbox@ == Seq::<mirror::Command>::empty(),
            final(self).mirror.history@ == Seq::<mirror::Command>::empty(),
            *final(self) == (Orb { mirror: final(self).mirror, ..*old(self) }),
    {
        let log = self.mirror.take_history();
        self.mirror.disable();
        log
    }

    /// Closes the image notary's signup history and returns its log.
    pub fn stop_image_notary(&mut self) -> (log: Vec<NotaryInput>)
        requires
            old(self).wf(),
            old(self).image_notary.enabled,
        ensures
            final(self).wf(),
            log@ == old(self).image_notary.history@.push(NotaryInput::FinalizeSignup),
            !final(self).image_notary.enabled,
            final(self).image_notary.inbox@ == Seq::<NotaryInput>::empty(),
            final(self).image_notary.history@ == Seq::<NotaryInput>::empty(),
            *final(self) == (Orb { image_notary: final(self).image_notary, ..*old(self) }),
    {
        self.image_notary.send_now(NotaryInput::FinalizeSignup);
        let log = self.image_notary.take_history();
        self.image_notary.disable();
        log
    }
}

impl Orb {
    /// Offers a frame to the iris model. With a free inbox slot the request
    /// is queued and the frame recorded as pending; with the inbox full the
    /// frame is dropped without bookkeeping — the deliberate backpressure
    /// that keeps perception lag from stalling the camera.
    pub fn send_ir_net_estimate(&mut self, frame: IrFrame)
        requires
            old(self).wf(),
            old(self).mega_agent_one.enabled,
        ensures
            final(self).wf(),
            old(self).ir_net_frames@.len() < IR_NET_INBOX_CAPACITY ==> {
                &&& final(self).ir_net_frames@ == old(self).ir_net_frames@.push(frame)
                &&& final(self).mega_agent_one.inbox@ == old(self).mega_agent_one.inbox@.push(
                    ir_net::EstimateRequest {
                        frame,
                        target_left_eye: old(self).target_left_eye,
                        focus_matrix_code: old(self).focus_matrix_code,
                    },
                )
                &&& final(self).mega_agent_one.enabled
            },
            old(self).ir_net_frames@.len() >= IR_NET_INBOX_CAPACITY ==> {
                &&& final(self).ir_net_frames@ == old(self).ir_net_frames@
                &&& final(self).mega_agent_one == old(self).mega_agent_one
            },
            *final(self) == (Orb {
                ir_net_frames: final(self).ir_net_frames,
                mega_agent_one: final(self).mega_agent_one,
                ..*old(self)
            }),
    {
        if self.ir_net_frames.len() < IR_NET_INBOX_CAPACITY {
            self.mega_agent_one.send_now(
                ir_net::EstimateRequest {
                    frame,
                    target_left_eye: self.target_left_eye,
                    focus_matrix_code: self.focus_matrix_code,
                },
            );
            self.ir_net_frames.push_back(frame);
        }
    }

    /// Offers a frame to the landmark model alone, with the same
    /// drop-on-full backpressure.
    pub fn send_rgb_net_estimate(&mut self, frame: RgbFrame)
        requires
            old(self).wf(),
            old(self).mega_agent_two.enabled,
        ensures
            final(self).wf(),
            old(self).rgb_net_frames@.len() < RGB_NET_INBOX_CAPACITY ==> {
                &&& final(self).rgb_net_frames@ == old(self).rgb_net_frames@.push(frame)
                &&& final(self).mega_agent_two.inbox@ == old(self).mega_agent_two.inbox@.push(
                    MegaAgentTwoRequest::RgbNet(frame),
                )
                &&& final(self).mega_agent_two.enabled
            },
            old(self).rgb_net_frames@.len() >= RGB_NET_INBOX_CAPACITY ==> {
                &&& final(self).rgb_net_frames@ == old(self).rgb_net_frames@
                &&& final(self).mega_agent_two == old(self).mega_agent_two
            },
            *final(self) == (Orb {
                rgb_net_frames: final(self).rgb_net_frames,
                mega_agent_two: final(self).mega_agent_two,
                ..*old(self)
            }),
    {
        if self.rgb_net_frames.len() < RGB_NET_INBOX_CAPACITY {
            self.mega_agent_two.send_now(MegaAgentTwoRequest::RgbNet(frame));
            self.rgb_net_frames.push_back(frame);
        }
    }

    /// Offers a frame to the fused landmark and face-validity pass, with
    /// the same drop-on-full backpressure.
    pub fn send_rgb_net_face_identifier_input(&mut self, frame: RgbFrame)
        requires
            old(self).wf(),
            old(self).mega_agent_two.enabled,
        ensures
            final(self).wf(),
            old(self).rgb_net_frames@.len() < RGB_NET_INBOX_CAPACITY ==> {
                &&& final(self).rgb_net_frames@ == old(self).rgb_net_frames@.push(frame)
                &&& final(self).mega_agent_two.inbox@ == old(self).mega_agent_two.inbox@.push(
                    MegaAgentTwoRequest::FusionRgbNetFaceIdentifier(frame),
                )
                &&& final(self).mega_agent_two.enabled
            },
            old(self).rgb_net_frames@.len() >= RGB_NET_INBOX_CAPACITY ==> {
                &&& final(self).rgb_net_frames@ == old(self).rgb_net_frames@
                &&& final(self).mega_agent_two == old(self).mega_agent_two
            },
            *final(self) == (Orb {
                rgb_net_frames: final(self).rgb_net_frames,
                mega_agent_two: final(self).mega_agent_two,
                ..*old(self)
            }),
    {
        if self.rgb_net_frames.len() < RGB_NET_INBOX_CAPACITY {
            self.mega_agent_two.send_now(MegaAgentTwoRequest::FusionRgbNetFaceIdentifier(frame));
            self.rgb_net_frames.push_back(frame);
        }
    }

    /// Recovers the pending IR frame that produced the estimate with this
    /// source timestamp. Older entries — frames whose estimates were lost
    /// to the drop-on-full policy — are discarded in FIFO order; an
    /// estimate with no pending frame at all drains the queue and counts a
    /// pairing miss.
    pub fn restore_ir_frame(&mut self, source_ts: u64) -> (r: Option<IrFrame>)
        requires
            old(self).wf(),
        ensures
            final(self).wf(),
            r matches Some(f) ==> f.source_ts == source_ts,
            ir_has_match(old(self).ir_net_frames@, source_ts) ==> {
                let k = ir_first_match(old(self).ir_net_frames@, source_ts);
                &&& r == Some(old(self).ir_net_frames@[k])
                &&& final(self).ir_net_frames@ == old(self).ir_net_frames@.subrange(
                    k + 1,
                    old(self).ir_net_frames@.len() as int,
                )
                &&& final(self).pairing_misses == old(self).pairing_misses
            },
            !ir_has_match(old(self).ir_net_frames@, source_ts) ==> {
                &&& r is None
                &&& final(self).ir_net_frames@ == Seq::<IrFrame>::empty()
                &&& final(self).pairing_misses == bump(old(self).pairing_misses)
            },
            *final(self) == (Orb {
                ir_net_frames: final(self).ir_net_frames,
                pairing_misses: final(self).pairing_misses,
                ..*old(self)
            }),
    {
        let ghost q0 = self.ir_net_frames@;
        let ghost mut k: int = 0;
        let mut done: bool = false;
        let mut result: Option<IrFrame> = None;
        while !done
            invariant
                0 <= k <= q0.len(),
                forall|i: int| 0 <= i < k ==> q0[i].source_ts != source_ts,
                !done ==> result is None && self.ir_net_frames@ =~= q0.subrange(
                    k,
                    q0.len() as int,
                ) && self.pairing_misses == old(self).pairing_misses,
                done ==> match result {
                    Some(f) => k < q0.len() && f == q0[k] && f.source_ts == source_ts
                        && self.ir_net_frames@ =~= q0.subrange(k + 1, q0.len() as int)
                        && self.pairing_misses == old(self).pairing_misses,
                    None => k == q0.len() && self.ir_net_frames@.len() == 0
                        && self.pairing_misses == bump(old(self).pairing_misses),
                },
                *self == (Orb {
                    ir_net_frames: self.ir_net_frames,
                    pairing_misses: self.pairing_misses,
                    ..*old(self)
                }),
            decreases q0.len() - k + (if done { 0int } else { 1 }),
        {
            match self.ir_net_frames.pop_front() {
                Some(frame) => {
                    if frame.source_ts == source_ts {
                        result = Some(frame);
                        done = true;
                    } else {
                        proof {
                            k = k + 1;
                        }
                    }
                },
                None => {
                    if self.pairing_misses != u64::MAX {
                        self.pairing_misses = self.pairing_misses + 1;
                    }
                    done = true;
                },
            }
        }
        proof {
            if result is Some {
                lemma_ir_first_match_is(q0, source_ts, k);
            }
        }
        result
    }

    /// Recovers the pending RGB frame that produced the estimate with this
    /// source timestamp, with the same FIFO discard of stale entries.
    pub fn restore_rgb_frame(&mut self, source_ts: u64) -> (r: Option<RgbFrame>)
        requires
            old(self).wf(),
        ensures
            final(self).wf(),
            r matches Some(f) ==> f.source_ts == source_ts,
            rgb_has_match(old(self).rgb_net_frames@, source_ts) ==> {
                let k = rgb_first_match(old(self).rgb_net_frames@, source_ts);
                &&& r == Some(old(self).rgb_net_frames@[k])
                &&& final(self).rgb_net_frames@ == old(self).rgb_net_frames@.subrange(
                    k + 1,
                    old(self).rgb_net_frames@.len() as int,
                )
                &&& final(self).pairing_misses == old(self).pairing_misses
            },
            !rgb_has_match(old(self).rgb_net_frames@, source_ts) ==> {
                &&& r is None
                &&& final(self).rgb_net_frames@ == Seq::<RgbFrame>::empty()
                &&& final(self).pairing_misses == bump(old(self).pairing_misses)
            },
            *final(self) == (Orb {
                rgb_net_frames: final(self).rgb_net_frames,
                pairing_misses: final(self).pairing_misses,
                ..*old(self)
            }),
    {
        let ghost q0 = self.rgb_net_frames@;
        let ghost mut k: int = 0;
        let mut done: bool = false;
        let mut result: Option<RgbFrame> = None;
        while !done
            invariant
                0 <= k <= q0.len(),
                forall|i: int| 0 <= i < k ==> q0[i].source_ts != source_ts,
                !done ==> result is None && self.rgb_net_frames@ =~= q0.subrange(
                    k,
                    q0.len() as int,
                ) && self.pairing_misses == old(self).pairing_misses,
                done ==> match result {
                    Some(f) => k < q0.len() && f == q0[k] && f.source_ts == source_ts
                        && self.rgb_net_frames@ =~= q0.subrange(k + 1, q0.len() as int)
                        && self.pairing_misses == old(self).pairing_misses,
                    None => k == q0.len() && self.rgb_net_frames@.len() == 0
                        && self.pairing_misses == bump(old(self).pairing_misses),
                },
                *self == (Orb {
                    rgb_net_frames: self.rgb_net_frames,
                    pairing_misses: self.pairing_misses,
                    ..*old(self)
                }),
            decreases q0.len() - k + (if done { 0int } else { 1 }),
        {
            match self.rgb_net_frames.pop_front() {
                Some(frame) => {
                    if frame.source_ts == source_ts {
                        result = Some(frame);
                        done = true;
                    } else {
                        proof {
                            k = k + 1;
                        }
                    }
                },
                None => {
                    if self.pairing_misses != u64::MAX {
                        self.pairing_misses = self.pairing_misses + 1;
                    }
                    done = true;
                },
            }
        }
        proof {
            if result is Some {
                lemma_rgb_first_match_is(q0, source_ts, k);
            }
        }
        result
    }

    /// Whether some pending RGB frame carries this source timestamp; the
    /// caller of the fusion handler checks this before dispatching.
    pub fn has_pending_rgb(&self, source_ts: u64) -> (r: bool)
        ensures
            r == rgb_has_match(self.rgb_net_frames@, source_ts),
    {
        let n = self.rgb_net_frames.len();
        let mut i: usize = 0;
        while i < n
            invariant
                0 <= i <= n,
                n == self.rgb_net_frames@.len(),
                forall|j: int| 0 <= j < i ==> self.rgb_net_frames@[j].source_ts != source_ts,
            decreases n - i,
        {
            if self.rgb_net_frames[i].source_ts == source_ts {
                return true;
            }
            i = i + 1;
        }
        false
    }
}

impl Orb {
    /// Routes one eye IR frame before any plan sees it: auto-exposure gets
    /// every frame; with the iris model running the frame is offered to it,
    /// otherwise auto-focus and the notary take it directly.
    pub fn handle_ir_eye_camera(&mut self, frame: IrFrame)
        requires
            old(self).wf(),
        ensures
            final(self).wf(),
            old(self).ir_auto_exposure.enabled ==> final(self).ir_auto_exposure.inbox@ == old(
                self,
            ).ir_auto_exposure.inbox@.push(AutoExposureInput::Frame(frame)),
            !old(self).ir_auto_exposure.enabled ==> final(self).ir_auto_exposure == old(
                self,
            ).ir_auto_exposure,
            (old(self).ir_net_enabled && old(self).mega_agent_one.enabled) ==> {
                &&& (old(self).ir_net_frames@.len() < IR_NET_INBOX_CAPACITY ==> {
                    &&& final(self).ir_net_frames@ == old(self).ir_net_frames@.push(frame)
                    &&& final(self).mega_agent_one.inbox@ == old(
                        self,
                    ).mega_agent_one.inbox@.push(
                        ir_net::EstimateRequest {
                            frame,
                            target_left_eye: old(self).target_left_eye,
                            focus_matrix_code: old(self).focus_matrix_code,
                        },
                    )
                })
                &&& (old(self).ir_net_frames@.len() >= IR_NET_INBOX_CAPACITY ==> {
                    &&& final(self).ir_net_frames@ == old(self).ir_net_frames@
                    &&& final(self).mega_agent_one == old(self).mega_agent_one
                })
                &&& final(self).ir_auto_focus == old(self).ir_auto_focus
                &&& final(self).image_notary == old(self).image_notary
            },
            !(old(self).ir_net_enabled && old(self).mega_agent_one.enabled) ==> {
                &&& final(self).ir_net_frames@ == old(self).ir_net_frames@
                &&& final(self).mega_agent_one == old(self).mega_agent_one
                &&& (old(self).ir_auto_focus.enabled ==> final(self).ir_auto_focus.inbox@ == old(
                    self,
                ).ir_auto_focus.inbox@.push(AutoFocusInput::Frame(frame)))
                &&& (!old(self).ir_auto_focus.enabled ==> final(self).ir_auto_focus == old(
                    self,
                ).ir_auto_focus)
                &&& (old(self).image_notary.enabled ==> final(self).image_notary.inbox@ == old(
                    self,
                ).image_notary.inbox@.push(
                    NotaryInput::SaveIrNetEstimate {
                        estimate: None,
                        frame,
                        wavelength: old(self).ir_led_wavelength,
                        target_left_eye: old(self).target_left_eye,
                    },
                ))
                &&& (!old(self).image_notary.enabled ==> final(self).image_notary == old(
                    self,
                ).image_notary)
            },
            *final(self) == (Orb {
                ir_auto_exposure: final(self).ir_auto_exposure,
                mega_agent_one: final(self).mega_agent_one,
                ir_net_frames: final(self).ir_net_frames,
                ir_auto_focus: final(self).ir_auto_focus,
                image_notary: final(self).image_notary,
                ..*old(self)
            }),
    {
        if self.ir_auto_exposure.is_enabled() {
            self.ir_auto_exposure.send_now(AutoExposureInput::Frame(frame));
        }
        if self.is_ir_net_enabled() {
            self.send_ir_net_estimate(frame);
        } else {
            if self.ir_auto_focus.is_enabled() {
                self.ir_auto_focus.send_now(AutoFocusInput::Frame(frame));
            }
            if self.image_notary.is_enabled() {
                let wavelength = self.ir_led_wavelength;
                let target_left_eye = self.target_left_eye;
                self.image_notary.send_now(
                    NotaryInput::SaveIrNetEstimate {
                        estimate: None,
                        frame,
                        wavelength,
                        target_left_eye,
                    },
                );
            }
        }
    }

    /// Routes one face IR frame: it goes to the notary.
    pub fn handle_ir_face_camera(&mut self, frame: IrFrame)
        requires
            old(self).wf(),
        ensures
            final(self).wf(),
            old(self).image_notary.enabled ==> final(self).image_notary.inbox@ == old(
                self,
            ).image_notary.inbox@.push(
                NotaryInput::SaveIrFaceData { frame, wavelength: old(self).ir_led_wavelength },
            ),
            !old(self).image_notary.enabled ==> final(self).image_notary == old(
                self,
            ).image_notary,
            *final(self) == (Orb { image_notary: final(self).image_notary, ..*old(self) }),
    {
        if self.image_notary.is_enabled() {
            let wavelength = self.ir_led_wavelength;
            self.image_notary.send_now(NotaryInput::SaveIrFaceData { frame, wavelength });
        }
    }

    /// Routes one color frame: the QR reader gets it if running; with the
    /// landmark model running the frame is offered as a plain or a fused
    /// request, depending on whether face validity is still wanted.
    pub fn handle_rgb_camera(&mut self, frame: RgbFrame)
        requires
            old(self).wf(),
        ensures
            final(self).wf(),
            old(self).qr_code.enabled ==> final(self).qr_code.inbox@ == old(
                self,
            ).qr_code.inbox@.push(QrCodeInput::Frame(frame)),
            !old(self).qr_code.enabled ==> final(self).qr_code == old(self).qr_code,
            (old(self).rgb_net_enabled && old(self).mega_agent_two.enabled) ==> {
                &&& (old(self).rgb_net_frames@.len() < RGB_NET_INBOX_CAPACITY ==> {
                    &&& final(self).rgb_net_frames@ == old(self).rgb_net_frames@.push(frame)
                    &&& final(self).mega_agent_two.inbox@ == old(
                        self,
                    ).mega_agent_two.inbox@.push(
                        if old(self).only_rgb_net_frames {
                            MegaAgentTwoRequest::RgbNet(frame)
                        } else {
                            MegaAgentTwoRequest::FusionRgbNetFaceIdentifier(frame)
                        },
                    )
                })
                &&& (old(self).rgb_net_frames@.len() >= RGB_NET_INBOX_CAPACITY ==> {
                    &&& final(self).rgb_net_frames@ == old(self).rgb_net_frames@
                    &&& final(self).mega_agent_two == old(self).mega_agent_two
                })
            },
            !(old(self).rgb_net_enabled && old(self).mega_agent_two.enabled) ==> {
                &&& final(self).rgb_net_frames@ == old(self).rgb_net_frames@
                &&& final(self).mega_agent_two == old(self).mega_agent_two
            },
            *final(self) == (Orb {
                qr_code: final(self).qr_code,
                mega_agent_two: final(self).mega_agent_two,
                rgb_net_frames: final(self).rgb_net_frames,
                ..*old(self)
            }),
    {
        if self.qr_code.is_enabled() {
            self.qr_code.send_now(QrCodeInput::Frame(frame));
        }
        if self.is_rgb_net_enabled() {
            if self.only_rgb_net_frames {
                self.send_rgb_net_estimate(frame);
            } else {
                self.send_rgb_net_face_identifier_input(frame);
            }
        }
    }

    /// Routes one thermal frame: it goes to the notary.
    pub fn handle_thermal_camera(&mut self, frame: ThermalFrame)
        requires
            old(self).wf(),
        ensures
            final(self).wf(),
            old(self).image_notary.enabled ==> final(self).image_notary.inbox@ == old(
                self,
            ).image_notary.inbox@.push(
                NotaryInput::SaveThermalData { frame, wavelength: old(self).ir_led_wavelength },
            ),
            !old(self).image_notary.enabled ==> final(self).image_notary == old(
                self,
            ).image_notary,
            *final(self) == (Orb { image_notary: final(self).image_notary, ..*old(self) }),
    {
        if self.image_notary.is_enabled() {
            let wavelength = self.ir_led_wavelength;
            self.image_notary.send_now(NotaryInput::SaveThermalData { frame, wavelength });
        }
    }

    /// Routes one landmark estimate to its derived agents: the eye tracker
    /// when tracking is possible, auto-focus when configured to use
    /// landmark estimates, and the distance agent.
    fn pre_handle_rgb_net_estimate(&mut self, estimate: rgb_net::EstimateOutput)
        requires
            old(self).wf(),
        ensures
            final(self).wf(),
            (old(self).eye_tracker.enabled && estimate.primary is Some) ==> {
                let p = estimate.primary->0;
                final(self).eye_tracker.inbox@ == old(self).eye_tracker.inbox@.push(
                    EyeTrackerInput::Track {
                        target_left_eye: old(self).target_left_eye,
                        landmark: if old(self).target_left_eye {
                            p.left_eye
                        } else {
                            p.right_eye
                        },
                    },
                )
            },
            !(old(self).eye_tracker.enabled && estimate.primary is Some) ==> final(self).eye_tracker == old(self).eye_tracker,
            (old(self).ir_auto_focus.enabled && old(self).ir_auto_focus_use_rgb_net_estimate)
                ==> final(self).ir_auto_focus.inbox@ == old(self).ir_auto_focus.inbox@.push(
                AutoFocusInput::RgbNetEstimate(estimate),
            ),
            !(old(self).ir_auto_focus.enabled && old(self).ir_auto_focus_use_rgb_net_estimate)
                ==> final(self).ir_auto_focus == old(self).ir_auto_focus,
            old(self).distance.enabled ==> final(self).distance.inbox@ == old(
                self,
            ).distance.inbox@.push(DistanceInput::RgbNetEstimate(estimate)),
            !old(self).distance.enabled ==> final(self).distance == old(self).distance,
            *final(self) == (Orb {
                eye_tracker: final(self).eye_tracker,
                ir_auto_focus: final(self).ir_auto_focus,
                distance: final(self).distance,
                ..*old(self)
            }),
    {
        if self.eye_tracker.is_enabled() {
            let target_left_eye = self.target_left_eye;
            match crate::agents::track(target_left_eye, &estimate) {
                Some(input) => self.eye_tracker.send_now(input),
                None => (),
            }
        }
        if self.ir_auto_focus.is_enabled() {
            if self.ir_auto_focus_use_rgb_net_estimate {
                self.ir_auto_focus.send_now(AutoFocusInput::RgbNetEstimate(estimate));
            }
        }
        if self.distance.is_enabled() {
            self.distance.send_now(DistanceInput::RgbNetEstimate(estimate));
        }
    }

    /// Pre-dispatch for an iris-model output. For an estimate, recovers its
    /// frame by source timestamp and fans the estimate out to the notary,
    /// auto-focus, the PID controller and the distance agent; an unmatched
    /// estimate counts a pairing miss and yields nothing. Version reports
    /// and model errors yield nothing.
    pub fn handle_ir_net(&mut self, source_ts: u64, output: &ir_net::Output) -> (r: Option<
        IrFrame,
    >)
        requires
            old(self).wf(),
        ensures
            final(self).wf(),
            r matches Some(f) ==> f.source_ts == source_ts,
            match *output {
                ir_net::Output::Estimate(est) => {
                    &&& (ir_has_match(old(self).ir_net_frames@, source_ts) ==> {
                        let k = ir_first_match(old(self).ir_net_frames@, source_ts);
                        let frame = old(self).ir_net_frames@[k];
                        &&& r == Some(frame)
                        &&& final(self).ir_net_frames@ == old(self).ir_net_frames@.subrange(
                            k + 1,
                            old(self).ir_net_frames@.len() as int,
                        )
                        &&& final(self).pairing_misses == old(self).pairing_misses
                        &&& (old(self).image_notary.enabled ==> final(self).image_notary.inbox@ == old(self).image_notary.inbox@.push(
                            NotaryInput::SaveIrNetEstimate {
                                estimate: Some(est),
                                frame,
                                wavelength: old(self).ir_led_wavelength,
                                target_left_eye: old(self).target_left_eye,
                            },
                        ))
                        &&& (!old(self).image_notary.enabled ==> final(self).image_notary == old(
                            self,
                        ).image_notary)
                        &&& (old(self).ir_auto_focus.enabled ==> final(self).ir_auto_focus.inbox@ == old(self).ir_auto_focus.inbox@.push(
                            AutoFocusInput::IrNetEstimate(est),
                        ))
                        &&& (!old(self).ir_auto_focus.enabled ==> final(self).ir_auto_focus
                            == old(self).ir_auto_focus)
                        &&& (old(self).eye_pid_controller.enabled ==> final(self).eye_pid_controller.inbox@ == old(self).eye_pid_controller.inbox@.push(
                            EyePidInput::IrNetEstimate(est),
                        ))
                        &&& (!old(self).eye_pid_controller.enabled ==> final(self).eye_pid_controller == old(self).eye_pid_controller)
                        &&& (old(self).distance.enabled ==> final(self).distance.inbox@ == old(
                            self,
                        ).distance.inbox@.push(DistanceInput::IrNetEstimate(est)))
                        &&& (!old(self).distance.enabled ==> final(self).distance == old(
                            self,
                        ).distance)
                    })
                    &&& (!ir_has_match(old(self).ir_net_frames@, source_ts) ==> {
                        &&& r is None
                        &&& final(self).ir_net_frames@ == Seq::<IrFrame>::empty()
                        &&& final(self).pairing_misses == bump(old(self).pairing_misses)
                        &&& final(self).image_notary == old(self).image_notary
                        &&& final(self).ir_auto_focus == old(self).ir_auto_focus
                        &&& final(self).eye_pid_controller == old(self).eye_pid_controller
                        &&& final(self).distance == old(self).distance
                    })
                },
                _ => r is None && *final(self) == *old(self),
            },
            *final(self) == (Orb {
                ir_net_frames: final(self).ir_net_frames,
                pairing_misses: final(self).pairing_misses,
                image_notary: final(self).image_notary,
                ir_auto_focus: final(self).ir_auto_focus,
                eye_pid_controller: final(self).eye_pid_controller,
                distance: final(self).distance,
                ..*old(self)
            }),
    {
        match *output {
            ir_net::Output::Estimate(est) => {
                match self.restore_ir_frame(source_ts) {
                    Some(frame) => {
                        if self.image_notary.is_enabled() {
                            let wavelength = self.ir_led_wavelength;
                            let target_left_eye = self.target_left_eye;
                            self.image_notary.send_now(
                                NotaryInput::SaveIrNetEstimate {
                                    estimate: Some(est),
                                    frame,
                                    wavelength,
                                    target_left_eye,
                                },
                            );
                        }
                        if self.ir_auto_focus.is_enabled() {
                            self.ir_auto_focus.send_now(AutoFocusInput::IrNetEstimate(est));
                        }
                        if self.eye_pid_controller.is_enabled() {
                            self.eye_pid_controller.send_now(EyePidInput::IrNetEstimate(est));
                        }
                        if self.distance.is_enabled() {
                            self.distance.send_now(DistanceInput::IrNetEstimate(est));
                        }
                        Some(frame)
                    },
                    None => None,
                }
            },
            _ => None,
        }
    }

    /// Pre-dispatch for a landmark-model output. For an estimate, recovers
    /// its frame by source timestamp, routes the estimate to the derived
    /// agents and the notary; an unmatched estimate counts a pairing miss
    /// and yields nothing, as does an undistortion report.
    pub fn handle_rgb_net(&mut self, source_ts: u64, output: &rgb_net::Output) -> (r: Option<
        RgbFrame,
    >)
        requires
            old(self).wf(),
        ensures
            final(self).wf(),
            r matches Some(f) ==> f.source_ts == source_ts,
            match *output {
                rgb_net::Output::Estimate(est) => {
                    &&& (rgb_has_match(old(self).rgb_net_frames@, source_ts) ==> {
                        let k = rgb_first_match(old(self).rgb_net_frames@, source_ts);
                        let frame = old(self).rgb_net_frames@[k];
                        &&& r == Some(frame)
                        &&& final(self).rgb_net_frames@ == old(self).rgb_net_frames@.subrange(
                            k + 1,
                            old(self).rgb_net_frames@.len() as int,
                        )
                        &&& final(self).pairing_misses == old(self).pairing_misses
                        &&& (old(self).image_notary.enabled ==> final(self).image_notary.inbox@ == old(self).image_notary.inbox@.push(
                            NotaryInput::SaveRgbNetEstimate { estimate: est, frame },
                        ))
                        &&& (!old(self).image_notary.enabled ==> final(self).image_notary == old(
                            self,
                        ).image_notary)
                        &&& (old(self).eye_tracker.enabled && est.primary is Some ==> {
                            let p = est.primary->0;
                            final(self).eye_tracker.inbox@ == old(self).eye_tracker.inbox@.push(
                                EyeTrackerInput::Track {
                                    target_left_eye: old(self).target_left_eye,
                                    landmark: if old(self).target_left_eye {
                                        p.left_eye
                                    } else {
                                        p.right_eye
                                    },
                                },
                            )
                        })
                        &&& (!(old(self).eye_tracker.enabled && est.primary is Some) ==> final(self).eye_tracker == old(self).eye_tracker)
                        &&& (old(self).ir_auto_focus.enabled && old(
                            self,
                        ).ir_auto_focus_use_rgb_net_estimate ==> final(self).ir_auto_focus.inbox@ == old(self).ir_auto_focus.inbox@.push(
                            AutoFocusInput::RgbNetEstimate(est),
                        ))
                        &&& (!(old(self).ir_auto_focus.enabled && old(
                            self,
                        ).ir_auto_focus_use_rgb_net_estimate) ==> final(self).ir_auto_focus
                            == old(self).ir_auto_focus)
                        &&& (old(self).distance.enabled ==> final(self).distance.inbox@ == old(
                            self,
                        ).distance.inbox@.push(DistanceInput::RgbNetEstimate(est)))
                        &&& (!old(self).distance.enabled ==> final(self).distance == old(
                            self,
                        ).distance)
                    })
                    &&& (!rgb_has_match(old(self).rgb_net_frames@, source_ts) ==> {
                        &&& r is None
                        &&& final(self).rgb_net_frames@ == Seq::<RgbFrame>::empty()
                        &&& final(self).pairing_misses == bump(old(self).pairing_misses)
                        &&& final(self).image_notary == old(self).image_notary
                        &&& final(self).eye_tracker == old(self).eye_tracker
                        &&& final(self).ir_auto_focus == old(self).ir_auto_focus
                        &&& final(self).distance == old(self).distance
                    })
                },
                rgb_net::Output::InitUndistort => r is None && *final(self) == *old(self),
            },
            *final(self) == (Orb {
                rgb_net_frames: final(self).rgb_net_frames,
                pairing_misses: final(self).pairing_misses,
                image_notary: final(self).image_notary,
                eye_tracker: final(self).eye_tracker,
                ir_auto_focus: final(self).ir_auto_focus,
                distance: final(self).distance,
                ..*old(self)
            }),
    {
        match *output {
            rgb_net::Output::Estimate(est) => {
                match self.restore_rgb_frame(source_ts) {
                    Some(frame) => {
                        self.pre_handle_rgb_net_estimate(est);
                        if self.image_notary.is_enabled() {
                            self.image_notary.send_now(
                                NotaryInput::SaveRgbNetEstimate { estimate: est, frame },
                            );
                        }
                        Some(frame)
                    },
                    None => None,
                }
            },
            rgb_net::Output::InitUndistort => None,
        }
    }

    /// Pre-dispatch for a fused landmark and face-validity output: recovers
    /// the one frame both verdicts describe and routes the landmark part.
    /// The fused pass answers exactly the requests that were queued, so a
    /// matching pending frame is a precondition, not a runtime case.
    pub fn handle_fusion_rgb_net_face_identifier(
        &mut self,
        source_ts: u64,
        rn_output: rgb_net::EstimateOutput,
        fi_output: face_identifier::IsValidOutput,
    ) -> (frame: RgbFrame)
        requires
            old(self).wf(),
            rgb_has_match(old(self).rgb_net_frames@, source_ts),
        ensures
            final(self).wf(),
            frame.source_ts == source_ts,
            ({
                let k = rgb_first_match(old(self).rgb_net_frames@, source_ts);
                &&& frame == old(self).rgb_net_frames@[k]
                &&& final(self).rgb_net_frames@ == old(self).rgb_net_frames@.subrange(
                    k + 1,
                    old(self).rgb_net_frames@.len() as int,
                )
            }),
            final(self).pairing_misses == old(self).pairing_misses,
            (old(self).eye_tracker.enabled && rn_output.primary is Some) ==> {
                let p = rn_output.primary->0;
                final(self).eye_tracker.inbox@ == old(self).eye_tracker.inbox@.push(
                    EyeTrackerInput::Track {
                        target_left_eye: old(self).target_left_eye,
                        landmark: if old(self).target_left_eye {
                            p.left_eye
                        } else {
                            p.right_eye
                        },
                    },
                )
            },
            !(old(self).eye_tracker.enabled && rn_output.primary is Some) ==> final(self).eye_tracker == old(self).eye_tracker,
            (old(self).ir_auto_focus.enabled && old(self).ir_auto_focus_use_rgb_net_estimate)
                ==> final(self).ir_auto_focus.inbox@ == old(self).ir_auto_focus.inbox@.push(
                AutoFocusInput::RgbNetEstimate(rn_output),
            ),
            !(old(self).ir_auto_focus.enabled && old(self).ir_auto_focus_use_rgb_net_estimate)
                ==> final(self).ir_auto_focus == old(self).ir_auto_focus,
            old(self).distance.enabled ==> final(self).distance.inbox@ == old(
                self,
            ).distance.inbox@.push(DistanceInput::RgbNetEstimate(rn_output)),
            !old(self).distance.enabled ==> final(self).distance == old(self).distance,
            old(self).image_notary.enabled ==> final(self).image_notary.inbox@ == old(
                self,
            ).image_notary.inbox@.push(
                NotaryInput::SaveFusionRnFi { estimate: rn_output, is_valid: fi_output, frame },
            ),
            !old(self).image_notary.enabled ==> final(self).image_notary == old(
                self,
            ).image_notary,
            *final(self) == (Orb {
                rgb_net_frames: final(self).rgb_net_frames,
                image_notary: final(self).image_notary,
                eye_tracker: final(self).eye_tracker,
                ir_auto_focus: final(self).ir_auto_focus,
                distance: final(self).distance,
                ..*old(self)
            }),
    {
        let restored = self.restore_rgb_frame(source_ts);
        let frame = match restored {
            Some(frame) => frame,
            None => {
                proof {
                    assert(false);
                }
                RgbFrame { source_ts }
            },
        };
        self.pre_handle_rgb_net_estimate(rn_output);
        if self.image_notary.is_enabled() {
            self.image_notary.send_now(
                NotaryInput::SaveFusionRnFi { estimate: rn_output, is_valid: fi_output, frame },
            );
        }
        frame
    }

    /// Routes an auto-focus output to the MCU as the liquid-lens target, in
    /// thousandths of a dioptre.
    pub fn handle_ir_auto_focus(&mut self, focus_milli: i64)
        requires
            old(self).wf(),
        ensures
            final(self).wf(),
            final(self).main_mcu.sent@ == old(self).main_mcu.sent@.push(
                mcu::Input::LiquidLens(Some(focus_milli)),
            ),
            final(self).main_mcu.log_mark == old(self).main_mcu.log_mark,
            *final(self) == (Orb { main_mcu: final(self).main_mcu, ..*old(self) }),
    {
        self.main_mcu.send_now(mcu::Input::LiquidLens(Some(focus_milli)));
    }

    /// Routes an auto-exposure output to both IR cameras and keeps the
    /// illuminator duration consistent with the new exposure: the two are
    /// never allowed to diverge.
    pub fn handle_ir_auto_exposure(&mut self, gain_milli: i64, exposure_us: u16)
        requires
            old(self).wf(),
        ensures
            final(self).wf(),
            old(self).ir_eye_camera.enabled ==> final(self).ir_eye_camera.inbox@ == old(
                self,
            ).ir_eye_camera.inbox@.push(IrCommand::SetGain(gain_milli)).push(
                IrCommand::SetExposure(exposure_us),
            ),
            !old(self).ir_eye_camera.enabled ==> final(self).ir_eye_camera == old(
                self,
            ).ir_eye_camera,
            old(self).ir_face_camera.enabled ==> final(self).ir_face_camera.inbox@ == old(
                self,
            ).ir_face_camera.inbox@.push(IrCommand::SetGain(gain_milli)).push(
                IrCommand::SetExposure(exposure_us),
            ),
            !old(self).ir_face_camera.enabled ==> final(self).ir_face_camera == old(
                self,
            ).ir_face_camera,
            final(self).ir_led_duration == exposure_us,
            final(self).main_mcu.sent@ == old(self).main_mcu.sent@.push(
                spec_duration_cmd(old(self).ir_led_wavelength, exposure_us),
            ),
            final(self).main_mcu.log_mark == old(self).main_mcu.log_mark,
            *final(self) == (Orb {
                ir_eye_camera: final(self).ir_eye_camera,
                ir_face_camera: final(self).ir_face_camera,
                ir_led_duration: exposure_us,
                main_mcu: final(self).main_mcu,
                ..*old(self)
            }),
    {
        if self.ir_eye_camera.is_enabled() {
            self.ir_eye_camera.send_now(IrCommand::SetGain(gain_milli));
            self.ir_eye_camera.send_now(IrCommand::SetExposure(exposure_us));
        }
        if self.ir_face_camera.is_enabled() {
            self.ir_face_camera.send_now(IrCommand::SetGain(gain_milli));
            self.ir_face_camera.send_now(IrCommand::SetExposure(exposure_us));
        }
        self.set_ir_duration(exposure_us);
    }

    /// Stores the eye tracker's mirror point and drives the mirror to it,
    /// summed with any stored PID offset.
    pub fn handle_eye_tracker(&mut self, point: mirror::Point)
        requires
            old(self).wf(),
            point.in_range(),
        ensures
            final(self).wf(),
            final(self).mirror_point == Some(point),
            old(self).mirror.enabled ==> {
                let offset = match old(self).mirror_offset {
                    Some(o) => o,
                    None => mirror::Point { horizontal: 0, vertical: 0 },
                };
                final(self).mirror.inbox@ == old(self).mirror.inbox@.push(
                    mirror::Command::SetPoint(
                        mirror::Point {
                            horizontal: (point.horizontal + offset.horizontal) as i64,
                            vertical: (point.vertical + offset.vertical) as i64,
                        },
                    ),
                )
            },
            !old(self).mirror.enabled ==> final(self).mirror == old(self).mirror,
            *final(self) == (Orb {
                mirror_point: Some(point),
                mirror: final(self).mirror,
                ..*old(self)
            }),
    {
        self.mirror_point = Some(point);
        if self.mirror.is_enabled() {
            let offset = match self.mirror_offset {
                Some(o) => o,
                None => mirror::Point::zero(),
            };
            self.mirror.send_now(mirror::Command::SetPoint(point.plus(offset)));
        }
    }

    /// Stores the PID controller's mirror offset and, once the tracker has
    /// produced a point, drives the mirror to their sum.
    pub fn handle_eye_pid_controller(&mut self, offset: mirror::Point)
        requires
            old(self).wf(),
            offset.in_range(),
        ensures
            final(self).wf(),
            final(self).mirror_offset == Some(offset),
            (old(self).mirror.enabled && old(self).mirror_point is Some) ==> {
                let point = old(self).mirror_point->0;
                final(self).mirror.inbox@ == old(self).mirror.inbox@.push(
                    mirror::Command::SetPoint(
                        mirror::Point {
                            horizontal: (point.horizontal + offset.horizontal) as i64,
                            vertical: (point.vertical + offset.vertical) as i64,
                        },
                    ),
                )
            },
            !(old(self).mirror.enabled && old(self).mirror_point is Some) ==> final(self).mirror
                == old(self).mirror,
            *final(self) == (Orb {
                mirror_offset: Some(offset),
                mirror: final(self).mirror,
                ..*old(self)
            }),
    {
        self.mirror_offset = Some(offset);
        if self.mirror.is_enabled() {
            match self.mirror_point {
                Some(point) => {
                    self.mirror.send_now(mirror::Command::SetPoint(point.plus(offset)));
                },
                None => (),
            }
        }
    }

    /// Routes a mirror actuator output to the MCU as the mirror command.
    pub fn handle_mirror(&mut self, x: i64, y: i64)
        requires
            old(self).wf(),
        ensures
            final(self).wf(),
            final(self).main_mcu.sent@ == old(self).main_mcu.sent@.push(mcu::Input::Mirror(x, y)),
            final(self).main_mcu.log_mark == old(self).main_mcu.log_mark,
            *final(self) == (Orb { main_mcu: final(self).main_mcu, ..*old(self) }),
    {
        self.main_mcu.send_now(mcu::Input::Mirror(x, y));
    }
}

/// What one `set_ir_wavelength` call leaves behind: the wavelength set,
/// exactly one MCU command issued, and the illuminator duration, the
/// calibration and the auto-exposure agent's liveness untouched.
pub open spec fn set_ir_wavelength_rel(pre: Orb, post: Orb, w: IrLed) -> bool {
    &&& post.ir_led_wavelength == w
    &&& post.main_mcu.sent@ == pre.main_mcu.sent@.push(mcu::Input::IrLed(w))
    &&& post.main_mcu.log_mark == pre.main_mcu.log_mark
    &&& post.ir_led_duration == pre.ir_led_duration
    &&& post.calibration == pre.calibration
    &&& post.ir_auto_exposure.enabled == pre.ir_auto_exposure.enabled
}

/// Setting the IR wavelength twice to the same value issues two MCU
/// commands but leaves the wavelength, its exposure interval and the
/// illuminator duration exactly as a single call would.
pub proof fn lemma_set_ir_wavelength_idempotent(o0: Orb, o1: Orb, o2: Orb, w: IrLed)
    requires
        set_ir_wavelength_rel(o0, o1, w),
        set_ir_wavelength_rel(o1, o2, w),
    ensures
        o2.ir_led_wavelength == w,
        o2.ir_led_wavelength == o1.ir_led_wavelength,
        spec_exposure_range(o2.ir_led_wavelength) == spec_exposure_range(o1.ir_led_wavelength),
        o2.ir_led_duration == o0.ir_led_duration,
        o2.main_mcu.sent@ == o0.main_mcu.sent@.push(mcu::Input::IrLed(w)).push(
            mcu::Input::IrLed(w),
        ),
{
}

/// The pending-frame queues are bounded by the model inbox capacities at
/// all times: the bound is part of the facade's well-formedness, which
/// every operation preserves.
pub proof fn lemma_pending_frames_bounded(o: Orb)
    requires
        o.wf(),
    ensures
        o.ir_net_frames@.len() <= IR_NET_INBOX_CAPACITY,
        o.rgb_net_frames@.len() <= RGB_NET_INBOX_CAPACITY,
{
}

} // verus!
