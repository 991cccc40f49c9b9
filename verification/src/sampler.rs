//! The sampling and aggregation state: one tick per sample interval, a delta
//! per tick stored into the sliding window, and every LOG_PERIOD ticks a
//! reduction of the window to the figures a report carries. The caller owns
//! the schedule (suspend, read the counter, call `step`); everything decided
//! here is a function of the state and the token handed in.

use vstd::prelude::*;
use vstd::arithmetic::div_mod::lemma_small_mod;
use vstd::arithmetic::div_mod::lemma_add_mod_noop;
use crate::counter::CounterToken;
use crate::counter::delta_spec;
use crate::window::SampleHistory;
use crate::window::WINDOW_CAPACITY;
use crate::window::sum_of;

verus! {

/// Milliseconds between two samples. The caller's scheduler honours it; the
/// logic here only exposes it.
pub const SAMPLE_INTERVAL_MS: u64 = 100;

/// Ticks between two reports: one report a second at ten samples a second.
pub const LOG_PERIOD: u64 = 10;

/// Whole seconds of history collected by `tick`: a tenth of the ticks taken,
/// ramping up over the first minute and holding at sixty thereafter.
pub open spec fn collected_seconds_spec(tick: u64) -> u64 {
    (if tick <= WINDOW_CAPACITY as u64 {
        tick
    } else {
        WINDOW_CAPACITY as u64
    }) / 10
}

/// The figures one report carries. Formatting — counts per minute as
/// `(window_sum / collected_seconds) * 60` and dose as a further division by
/// the tube's calibration ratio — is the presentation layer's affair.
pub struct Report {
    /// The last token read, shown as the cumulative raw total.
    pub total: u32,
    /// The sum of every slot of the window, stale zeros included.
    pub window_sum: u64,
    /// Whole seconds of history behind `window_sum`, between one and sixty.
    pub collected_seconds: u64,
}

/// The long-lived state of the sampling loop: the window of deltas, the tick
/// counter, and the previous counter snapshot.
pub struct Sampler {
    history: SampleHistory,
    tick: u64,
    last: CounterToken,
}

impl Sampler {
    /// The window's slots.
    pub closed spec fn history_view(&self) -> Seq<u32> {
        self.history.slots_view()
    }

    /// Ticks taken so far.
    pub closed spec fn tick_view(&self) -> u64 {
        self.tick
    }

    /// The previous counter snapshot the next delta is computed against.
    pub closed spec fn last_token_view(&self) -> u32 {
        self.last@
    }

    /// Well-formed: the window is, and the write cursor trails the tick
    /// counter modulo the window's capacity.
    pub closed spec fn wf(&self) -> bool {
        &&& self.history.wf()
        &&& self.history.cursor_view() == self.tick as int % (WINDOW_CAPACITY as int)
    }

    /// A fresh sampler: no ticks taken, an all-zero window, and the initial
    /// counter read as the snapshot deltas start from.
    pub fn new(initial: CounterToken) -> (s: Self)
        ensures
            s.wf(),
            s.tick_view() == 0,
            s.last_token_view() == initial@,
            s.history_view().len() == WINDOW_CAPACITY,
            forall|i: int| 0 <= i < WINDOW_CAPACITY ==> s.history_view()[i] == 0u32,
    {
        let history = SampleHistory::new();
        proof {
            lemma_small_mod(0nat, WINDOW_CAPACITY as nat);
        }
        Sampler { history, tick: 0, last: initial }
    }

    /// One sampling tick, given the token just read: stores the saturating
    /// delta against the previous snapshot at the cursor's slot, remembers
    /// the token, counts the tick, and on every LOG_PERIOD-th tick reduces
    /// the window to a report — the window's sum, the seconds collected, and
    /// the token as cumulative total. All other ticks report nothing.
    pub fn step(&mut self, token: CounterToken) -> (report: Option<Report>)
        requires
            old(self).wf(),
            old(self).tick_view() < u64::MAX,
        ensures
            final(self).wf(),
            final(self).tick_view() == old(self).tick_view() + 1,
            final(self).last_token_view() == token@,
            final(self).history_view() == old(self).history_view().update(
                old(self).tick_view() as int % (WINDOW_CAPACITY as int),
                delta_spec(old(self).last_token_view(), token@),
            ),
            report is Some <==> final(self).tick_view() % LOG_PERIOD == 0,
            report matches Some(r) ==> {
                &&& r.total == token@
                &&& r.window_sum == sum_of(final(self).history_view())
                &&& r.collected_seconds == collected_seconds_spec(final(self).tick_view())
            },
    {
        let delta = token.delta_since(&self.last);
        self.last = token;
        self.history.record(delta);
        proof {
            lemma_add_mod_noop(self.tick as int, 1int, WINDOW_CAPACITY as int);
            lemma_small_mod(1nat, WINDOW_CAPACITY as nat);
        }
        self.tick = self.tick + 1;
        if self.tick % LOG_PERIOD == 0 {
            let window_sum = self.history.sum();
            let capped = if self.tick <= WINDOW_CAPACITY as u64 {
                self.tick
            } else {
                WINDOW_CAPACITY as u64
            };
            Some(Report { total: token.value(), window_sum, collected_seconds: capped / 10 })
        } else {
            None
        }
    }

    /// Ticks taken so far, for the caller's overflow guard.
    pub fn tick(&self) -> (t: u64)
        ensures
            t == self.tick_view(),
    {
        self.tick
    }
}

/// The window saturates: from tick WINDOW_CAPACITY on, the seconds collected
/// stay at sixty however large the tick counter grows.
pub proof fn lemma_collected_seconds_saturates(tick: u64)
    requires
        tick >= WINDOW_CAPACITY as u64,
    ensures
        collected_seconds_spec(tick) == 60,
{
}

/// Reports come exactly every LOG_PERIOD ticks, and the first, at tick
/// LOG_PERIOD, covers one whole second of history.
pub proof fn lemma_first_report_window(tick: u64)
    requires
        1 <= tick <= WINDOW_CAPACITY as u64,
        tick % LOG_PERIOD == 0,
    ensures
        collected_seconds_spec(tick) == tick / 10,
        tick == LOG_PERIOD ==> collected_seconds_spec(tick) == 1,
{
}

} // verus!
