//! Discrete low-pass filtering over irregularly sampled signals.

use vstd::prelude::*;
use vstd::arithmetic::div_mod::{
    lemma_div_is_ordered, lemma_div_multiples_vanish, lemma_div_pos_is_pos,
};

verus! {

/// Bound on the magnitude of a filtered signal sample, in thousandths.
pub const SIGNAL_LIMIT_MILLI: i64 = 1_000_000_000;

/// Whether a sample lies within the range the filter arithmetic keeps exact.
pub open spec fn valid_milli(x: i64) -> bool {
    -SIGNAL_LIMIT_MILLI <= x <= SIGNAL_LIMIT_MILLI
}

/// Bound on one filter step, in milliseconds: a longer gap saturates at this
/// value, by which point the filter has all but converged anyway.
pub const MAX_FILTER_STEP_MS: u64 = 1_000_000;

/// The time step the filter actually uses.
pub open spec fn clamp_dt(dt_ms: u64) -> u64 {
    if dt_ms > MAX_FILTER_STEP_MS {
        MAX_FILTER_STEP_MS
    } else {
        dt_ms
    }
}

/// One update of the filter: the first sample seeds the state; later samples
/// move it towards the input by the fraction `dt / (dt + rc)`, rounded
/// towards the old state.
pub open spec fn lpf_next(state: Option<i64>, value: i64, dt_ms: u64, rc_ms: u64) -> int {
    match state {
        None => value as int,
        Some(s) => {
            let dt = clamp_dt(dt_ms) as int;
            let den = dt + rc_ms;
            if value >= s {
                s + (value - s) * dt / den
            } else {
                s - (s - value) * dt / den
            }
        },
    }
}

/// One filter step stays between the old state and the input, so a filter
/// fed valid samples holds a valid state.
pub proof fn lemma_lpf_next_bounds(state: Option<i64>, value: i64, dt_ms: u64, rc_ms: u64)
    requires
        valid_milli(value),
        state matches Some(s) ==> valid_milli(s),
        rc_ms >= 1,
        rc_ms <= MAX_FILTER_STEP_MS,
    ensures
        -SIGNAL_LIMIT_MILLI <= lpf_next(state, value, dt_ms, rc_ms) <= SIGNAL_LIMIT_MILLI,
        state matches Some(s) ==> (if value >= s {
            s <= lpf_next(state, value, dt_ms, rc_ms) <= value
        } else {
            value <= lpf_next(state, value, dt_ms, rc_ms) <= s
        }),
{
    match state {
        None => {},
        Some(s) => {
            let dt = clamp_dt(dt_ms) as int;
            let den = dt + rc_ms;
            let d: int = if value >= s {
                value - s
            } else {
                s - value
            };
            assert(d >= 0);
            assert(0 < den);
            assert(dt <= den);
            lemma_div_pos_is_pos(d * dt, den);
            assert(d * dt <= d * den) by (nonlinear_arith)
                requires
                    d >= 0,
                    dt <= den,
            ;
            lemma_div_is_ordered(d * dt, d * den, den);
            lemma_div_multiples_vanish(d, den);
            assert(d * den == den * d) by (nonlinear_arith);
            assert(d * dt / den <= d);
        },
    }
}

/// A low-pass IIR filter state, in thousandths.
#[derive(Clone, Copy, Debug, PartialEq, Eq, Structural)]
pub struct LowPassFilter {
    /// The filtered value; `None` until the first sample arrives.
    pub state_milli: Option<i64>,
}

impl LowPassFilter {
    /// The held state, if any, lies within the valid signal range.
    pub open spec fn wf(self) -> bool {
        self.state_milli matches Some(s) ==> valid_milli(s)
    }

    /// An empty filter.
    pub fn new() -> (r: Self)
        ensures
            r.wf(),
            r.state_milli is None,
    {
        LowPassFilter { state_milli: None }
    }

    /// Discards the held state.
    pub fn reset(&mut self)
        ensures
            final(self).state_milli is None,
            final(self).wf(),
    {
        self.state_milli = None;
    }

    /// Feeds one sample taken `dt_ms` after the previous one, with time
    /// constant `rc_ms`, and returns the new filtered value.
    pub fn add(&mut self, value: i64, dt_ms: u64, rc_ms: u64) -> (r: i64)
        requires
            old(self).wf(),
            valid_milli(value),
            1 <= rc_ms <= MAX_FILTER_STEP_MS,
        ensures
            final(self).wf(),
            r == lpf_next(old(self).state_milli, value, dt_ms, rc_ms),
            final(self).state_milli == Some(r),
            valid_milli(r),
    {
        proof {
            lemma_lpf_next_bounds(self.state_milli, value, dt_ms, rc_ms);
        }
        match self.state_milli {
            None => {
                self.state_milli = Some(value);
                value
            },
            Some(s) => {
                let dt: u64 = if dt_ms > MAX_FILTER_STEP_MS {
                    MAX_FILTER_STEP_MS
                } else {
                    dt_ms
                };
                let den: u64 = dt + rc_ms;
                let r: i64 = if value >= s {
                    let dv: u64 = (value - s) as u64;
                    proof {
                        assert(dv * dt <= 2_000_000_000_000_000) by (nonlinear_arith)
                            requires
                                dv <= 2_000_000_000,
                                dt <= 1_000_000,
                        ;
                    }
                    let q: u64 = dv * dt / den;
                    s + q as i64
                } else {
                    let dv: u64 = (s - value) as u64;
                    proof {
                        assert(dv * dt <= 2_000_000_000_000_000) by (nonlinear_arith)
                            requires
                                dv <= 2_000_000_000,
                                dt <= 1_000_000,
                        ;
                    }
                    let q: u64 = dv * dt / den;
                    s - q as i64
                };
                self.state_milli = Some(r);
                r
            },
        }
    }
}

} // verus!
