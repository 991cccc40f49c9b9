//! The counter token: the opaque value a hardware pulse counter read is
//! turned into. A token has no meaning as an absolute physical count — the
//! underlying register saturates and can be cleared independently of elapsed
//! pulses — so the only operation offered on it is the saturating delta
//! against an earlier token of the same kind.

use vstd::prelude::*;

verus! {

/// The saturating difference between two successive token values: the number
/// of pulses attributed to the interval, clamped to zero when the register
/// was reset or wrapped so that the current value fell below the previous one.
pub open spec fn delta_spec(previous: u32, current: u32) -> u32 {
    if current >= previous {
        (current - previous) as u32
    } else {
        0u32
    }
}

/// An opaque snapshot of the pulse counter. Callers may only compare it to a
/// previous snapshot through `delta_since`, or surface its raw value for
/// display in a report.
#[derive(Clone, Copy)]
pub struct CounterToken {
    raw: u32,
}

impl View for CounterToken {
    type V = u32;

    closed spec fn view(&self) -> u32 {
        self.raw
    }
}

impl CounterToken {
    /// Wraps the unsigned reinterpretation of a raw register read.
    pub fn from_raw(raw: u32) -> (t: Self)
        ensures
            t@ == raw,
    {
        CounterToken { raw }
    }

    /// The pulses counted since `previous` was read: the saturating
    /// difference of the two token values.
    pub fn delta_since(&self, previous: &CounterToken) -> (d: u32)
        ensures
            d == delta_spec(previous@, self@),
    {
        if self.raw >= previous.raw {
            self.raw - previous.raw
        } else {
            0
        }
    }

    /// The token's numeric value, for the cumulative total shown in a report.
    pub fn value(&self) -> (v: u32)
        ensures
            v == self@,
    {
        self.raw
    }
}

/// No stored delta is ever negative, and a delta is the plain difference
/// exactly when the counter did not move backwards.
pub proof fn lemma_delta_clamped(previous: u32, current: u32)
    ensures
        delta_spec(previous, current) >= 0,
        current >= previous ==> delta_spec(previous, current) == current - previous,
        current < previous ==> delta_spec(previous, current) == 0,
{
}

/// Two reads with no intervening pulses yield identical tokens, and identical
/// tokens produce a delta of zero.
pub proof fn lemma_identical_tokens_zero_delta(t: u32)
    ensures
        delta_spec(t, t) == 0,
{
}

} // verus!
