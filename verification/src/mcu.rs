//! Main microcontroller command surface.
//!
//! The facade is the single writer on the MCU command bus. This crate records
//! the commands in order; performing the sends, and draining the MCU's
//! broadcast output, happen outside it.

use vstd::prelude::*;

verus! {

/// Infrared illuminator wavelength.
#[derive(Clone, Copy, Debug, PartialEq, Eq, Structural)]
pub enum IrLed {
    /// Illuminator off.
    Off,
    /// 740 nm, the legacy band with its own duration command path.
    L740,
    /// 850 nm.
    L850,
    /// 940 nm.
    L940,
}

/// Default IR illuminator wavelength.
pub const DEFAULT_IR_LED_WAVELENGTH: IrLed = IrLed::L850;

/// A command sent to the main MCU.
#[derive(Clone, Copy, Debug, PartialEq, Eq, Structural)]
pub enum Input {
    /// Select the IR illuminator wavelength.
    IrLed(IrLed),
    /// Set the IR illuminator PWM duration, in microseconds.
    IrLedDuration(u16),
    /// Set the IR illuminator PWM duration for the legacy 740 nm band.
    IrLedDuration740nm(u16),
    /// Start or stop the external trigger of the IR eye camera.
    TriggeringIrEyeCamera(bool),
    /// Start or stop the external trigger of the IR face camera.
    TriggeringIrFaceCamera(bool),
    /// Set the shared external trigger rate, in frames per second.
    FrameRate(u16),
    /// Drive the liquid lens to a focus target, in thousandths of a
    /// dioptre, or release it.
    LiquidLens(Option<i64>),
    /// Drive the steering mirror, in millionths of a degree per axis.
    Mirror(i64, i64),
    /// Cut power gracefully within this many seconds.
    Shutdown(u64),
}

/// The MCU command bus as the facade sees it: the full command history and
/// an optional mark from which the session log is collected.
#[derive(Clone, Debug)]
pub struct Bus {
    pub sent: Vec<Input>,
    pub log_mark: Option<usize>,
}

impl Bus {
    /// The mark never lies beyond the command history.
    pub open spec fn wf(self) -> bool {
        self.log_mark matches Some(m) ==> m <= self.sent@.len()
    }

    /// A bus with no commands sent and no log running.
    pub fn new() -> (r: Self)
        ensures
            r.wf(),
            r.sent@ == Seq::<Input>::empty(),
            r.log_mark is None,
    {
        Bus { sent: Vec::new(), log_mark: None }
    }

    /// Records one command. The original queues it on the bus and awaits the
    /// acknowledgement; a failed send aborts the session outside this crate.
    pub fn send(&mut self, input: Input)
        ensures
            final(self).sent@ == old(self).sent@.push(input),
            final(self).log_mark == old(self).log_mark,
            old(self).wf() ==> final(self).wf(),
    {
        self.sent.push(input);
    }

    /// Records one command without awaiting capacity; used for control
    /// signals issued from non-blocking handlers.
    pub fn send_now(&mut self, input: Input)
        ensures
            final(self).sent@ == old(self).sent@.push(input),
            final(self).log_mark == old(self).log_mark,
            old(self).wf() ==> final(self).wf(),
    {
        self.sent.push(input);
    }

    /// Starts collecting the session log at the current point in history.
    pub fn log_start(&mut self)
        ensures
            final(self).sent@ == old(self).sent@,
            final(self).log_mark == Some(old(self).sent@.len() as usize),
            final(self).wf(),
    {
        self.log_mark = Some(self.sent.len());
    }

    /// Stops collecting and returns every command recorded since
    /// `log_start`; with no log running, returns the whole history.
    pub fn log_stop(&mut self) -> (log: Vec<Input>)
        requires
            old(self).wf(),
        ensures
            final(self).wf(),
            final(self).sent@ == old(self).sent@,
            final(self).log_mark is None,
            log@ == old(self).sent@.subrange(
                match old(self).log_mark { Some(m) => m as int, None => 0 },
                old(self).sent@.len() as int,
            ),
    {
        let start: usize = match self.log_mark {
            Some(m) => m,
            None => 0,
        };
        self.log_mark = None;
        let mut log: Vec<Input> = Vec::new();
        let mut i: usize = start;
        while i < self.sent.len()
            invariant
                start <= i <= self.sent@.len(),
                log@ == self.sent@.subrange(start as int, i as int),
            decreases self.sent@.len() - i,
        {
            log.push(self.sent[i]);
            proof {
                assert(self.sent@.subrange(start as int, i + 1 as int)
                    =~= self.sent@.subrange(start as int, i as int).push(self.sent@[i as int]));
            }
            i = i + 1;
        }
        log
    }
}

} // verus!
