//! Camera frames and camera agent commands.
//!
//! A frame is an opaque, cheaply copyable handle to an acquired image: it
//! carries the source timestamp stamped when the frame entered the broker and
//! the metadata the control plane reads. Pixel data stays outside this crate.

use vstd::prelude::*;

verus! {

/// An infrared frame handle.
#[derive(Clone, Copy, Debug, PartialEq, Eq, Structural)]
pub struct IrFrame {
    /// Monotonic timestamp of acquisition, in milliseconds. Estimates derived
    /// from this frame carry the same timestamp.
    pub source_ts: u64,
    /// Mean pixel intensity, in thousandths of an intensity level.
    pub mean_milli: i64,
}

impl IrFrame {
    /// Mean pixel intensity of the frame, in thousandths of an intensity
    /// level.
    pub fn mean(&self) -> (r: i64)
        ensures
            r == self.mean_milli,
    {
        self.mean_milli
    }
}

/// A color frame handle.
#[derive(Clone, Copy, Debug, PartialEq, Eq, Structural)]
pub struct RgbFrame {
    /// Monotonic timestamp of acquisition, in milliseconds.
    pub source_ts: u64,
}

/// A thermal frame handle.
#[derive(Clone, Copy, Debug, PartialEq, Eq, Structural)]
pub struct ThermalFrame {
    /// Monotonic timestamp of acquisition, in milliseconds.
    pub source_ts: u64,
}

/// A command accepted by an IR camera agent.
#[derive(Clone, Copy, Debug, PartialEq, Eq, Structural)]
pub enum IrCommand {
    Start,
    SetGain(i64),
    SetExposure(u16),
}

/// A command accepted by the RGB camera agent.
#[derive(Clone, Copy, Debug, PartialEq, Eq, Structural)]
pub enum RgbCommand {
    Start,
    Stop,
    Reset,
    /// Fisheye undistortion parameters: reduced width, reduced height, and
    /// whether undistortion is applied.
    Fisheye(u32, u32, bool),
}

/// A command accepted by the thermal camera agent.
#[derive(Clone, Copy, Debug, PartialEq, Eq, Structural)]
pub enum ThermalCommand {
    Start,
    Stop,
}

} // verus!
