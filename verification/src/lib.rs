//! Control plane of an iris-enrolment device: a broker of typed agent
//! messages, an orb facade owning the actuator state, and a biometric-capture
//! plan driving both until each eye holds an accepted frame pair.

use vstd::prelude::*;

pub mod agent;
pub mod agents;
pub mod biometric_capture;
pub mod calibration;
pub mod camera;
pub mod consts;
pub mod face_identifier;
pub mod ir_net;
pub mod led;
pub mod mcu;
pub mod mirror;
pub mod orb;
pub mod pid;
pub mod rgb_net;
pub mod secure_element;
pub mod sound;
pub mod status;

verus! {

/// Flow token returned by every plan callback: whether the broker keeps
/// polling or exits its loop.
#[derive(Clone, Copy, Debug, PartialEq, Eq, Structural)]
pub enum BrokerFlow {
    Continue,
    Break,
}

} // verus!
