use vstd::prelude::*;
use vstd::arithmetic::div_mod::*;
use crate::draw::{uniform_in, RANDOM_TEMPO_MAX, RANDOM_TEMPO_MIN};
use crate::protocol::TickOutcome;

verus! {

pub const INTERVAL_BEATS_MIN: u32 = 10;

pub const INTERVAL_BEATS_MAX: u32 = 500;

pub const INTERVAL_BEATS_DEFAULT: u32 = 100;

/// The random mode: every `interval_beats` beats a new tempo is drawn.
#[derive(Clone, Copy, Debug, PartialEq, Eq, Structural)]
pub struct RandomState {
    pub interval_beats: u32,
    pub remaining_beats: u32,
}

/// The interval nearest to `interval_beats` that the random mode accepts.
pub open spec fn clamped_interval(interval_beats: u32) -> u32 {
    if interval_beats < INTERVAL_BEATS_MIN {
        INTERVAL_BEATS_MIN
    } else if interval_beats > INTERVAL_BEATS_MAX {
        INTERVAL_BEATS_MAX
    } else {
        interval_beats
    }
}

impl RandomState {
    pub open spec fn wf(self) -> bool {
        &&& INTERVAL_BEATS_MIN <= self.interval_beats <= INTERVAL_BEATS_MAX
        &&& self.remaining_beats <= self.interval_beats
    }

    /// The state with the given interval, clamped, and a full count.
    pub open spec fn with_interval(interval_beats: u32) -> RandomState {
        RandomState {
            interval_beats: clamped_interval(interval_beats),
            remaining_beats: clamped_interval(interval_beats),
        }
    }

    /// The state at a fresh start: the count is full again.
    pub open spec fn restarted(self) -> RandomState {
        RandomState { interval_beats: self.interval_beats, remaining_beats: self.interval_beats }
    }

    /// The count from which this tick counts down.
    pub open spec fn count_before_tick(self) -> u32 {
        if self.remaining_beats == 0 {
            self.interval_beats
        } else {
            self.remaining_beats
        }
    }

    /// Whether this tick ends the interval, so that a new tempo is drawn.
    pub open spec fn draw_due(self) -> bool {
        self.count_before_tick() <= 1
    }

    /// The state after one tick.
    pub open spec fn ticked(self) -> RandomState {
        RandomState {
            interval_beats: self.interval_beats,
            remaining_beats: if self.draw_due() {
                self.interval_beats
            } else {
                (self.count_before_tick() - 1) as u32
            },
        }
    }

    /// What one tick decides, given the tempo that a draw would give.
    pub open spec fn outcome(self, drawn: u32) -> TickOutcome {
        TickOutcome {
            accent: false,
            alternate_sound: false,
            tempo_override: if self.draw_due() {
                Some(drawn)
            } else {
                None
            },
        }
    }

    /// The part of the interval that has passed, in thousandths; 0 for an
    /// interval of no beats.
    pub open spec fn progress_permille(self) -> int {
        if self.interval_beats == 0 || self.remaining_beats > self.interval_beats {
            0
        } else {
            (self.interval_beats - self.remaining_beats) * 1000 / (self.interval_beats as int)
        }
    }

    /// The state after `n` ticks.
    pub open spec fn ticked_times(self, n: nat) -> RandomState
        decreases n,
    {
        if n == 0 {
            self
        } else {
            self.ticked_times((n - 1) as nat).ticked()
        }
    }

    pub fn new(interval_beats: u32) -> (state: RandomState)
        ensures
            state == Self::with_interval(interval_beats),
            state.wf(),
    {
        let interval: u32 = if interval_beats < INTERVAL_BEATS_MIN {
            INTERVAL_BEATS_MIN
        } else if interval_beats > INTERVAL_BEATS_MAX {
            INTERVAL_BEATS_MAX
        } else {
            interval_beats
        };
        RandomState { interval_beats: interval, remaining_beats: interval }
    }

    /// Sets a new interval, clamped to what the mode accepts, and starts the
    /// count over.
    pub fn set_interval(&mut self, interval_beats: u32)
        ensures
            *final(self) == Self::with_interval(interval_beats),
            final(self).wf(),
    {
        *self = RandomState::new(interval_beats);
    }

    pub fn restart(&mut self)
        ensures
            *final(self) == old(self).restarted(),
    {
        self.remaining_beats = self.interval_beats;
    }

    pub fn compute_progress_permille(&self) -> (progress: u32)
        ensures
            progress == self.progress_permille(),
            progress <= 1000,
    {
        if self.interval_beats == 0 || self.remaining_beats > self.interval_beats {
            return 0;
        }
        let passed: u64 = (self.interval_beats - self.remaining_beats) as u64;
        let whole: u64 = self.interval_beats as u64;
        assert(passed * 1000 / (whole as int) <= 1000) by (nonlinear_arith)
            requires
                passed <= whole,
                whole > 0,
        ;
        (passed * 1000 / whole) as u32
    }

    pub fn is_draw_due(&self) -> (due: bool)
        ensures
            due == self.draw_due(),
    {
        let count: u32 = if self.remaining_beats == 0 {
            self.interval_beats
        } else {
            self.remaining_beats
        };
        count <= 1
    }

    /// One tick, with `drawn` as the tempo to take if this tick ends the
    /// interval.
    pub fn tick_with(&mut self, drawn: u32) -> (out: TickOutcome)
        ensures
            *final(self) == old(self).ticked(),
            out == old(self).outcome(drawn),
            old(self).wf() ==> final(self).wf(),
    {
        let count: u32 = if self.remaining_beats == 0 {
            self.interval_beats
        } else {
            self.remaining_beats
        };
        let left: u32 = count.saturating_sub(1);
        if left == 0 {
            self.remaining_beats = self.interval_beats;
            TickOutcome { accent: false, alternate_sound: false, tempo_override: Some(drawn) }
        } else {
            self.remaining_beats = left;
            TickOutcome::plain()
        }
    }

    /// One tick. Where it ends the interval, the new tempo is drawn
    /// uniformly from 60 to 200.
    pub fn tick(&mut self) -> (out: TickOutcome)
        ensures
            *final(self) == old(self).ticked(),
            exists|drawn: u32|
                RANDOM_TEMPO_MIN <= drawn <= RANDOM_TEMPO_MAX && out == old(self).outcome(drawn),
            old(self).wf() ==> final(self).wf(),
    {
        let drawn: u32 = if self.is_draw_due() {
            uniform_in(RANDOM_TEMPO_MIN, RANDOM_TEMPO_MAX)
        } else {
            RANDOM_TEMPO_MIN
        };
        self.tick_with(drawn)
    }
}

/// A tick that ends no interval leaves the tempo alone, whatever was drawn.
pub proof fn lemma_outcome_ignores_unused_draw(state: RandomState, a: u32, b: u32)
    requires
        !state.draw_due(),
    ensures
        state.outcome(a) == state.outcome(b),
{
}

/// After `n` ticks from a full count, with an interval of `i` beats, the
/// count left is `i - n % i` where `n % i` is not 0, and `i` where it is.
pub proof fn lemma_count_after_ticks(state: RandomState, n: nat)
    requires
        state.interval_beats >= 1,
        state.remaining_beats == state.interval_beats,
    ensures
        state.ticked_times(n).interval_beats == state.interval_beats,
        state.ticked_times(n).remaining_beats == (if n % (state.interval_beats as nat) != 0 {
            state.interval_beats - n % (state.interval_beats as nat)
        } else {
            state.interval_beats as int
        }),
    decreases n,
{
    let i = state.interval_beats as int;
    if n == 0 {
        lemma_small_mod(0, i as nat);
    } else {
        let m = (n - 1) as nat;
        lemma_count_after_ticks(state, m);
        lemma_mod_step(m as int, i);
    }
}

/// How the remainder moves from `m` to `m + 1`.
proof fn lemma_mod_step(m: int, i: int)
    requires
        m >= 0,
        i >= 1,
    ensures
        0 <= m % i < i,
        (m % i) + 1 < i ==> (m + 1) % i == (m % i) + 1,
        (m % i) + 1 == i ==> (m + 1) % i == 0,
{
    lemma_fundamental_div_mod(m, i);
    lemma_mod_pos_bound(m, i);
    let q = m / i;
    let r = m % i;
    if r + 1 < i {
        assert(m + 1 == q * i + (r + 1)) by (nonlinear_arith)
            requires
                m == i * q + r,
        ;
        lemma_fundamental_div_mod_converse(m + 1, i, q, r + 1);
    } else {
        assert(m + 1 == (q + 1) * i + 0) by (nonlinear_arith)
            requires
                m == i * q + r,
                r + 1 == i,
        ;
        lemma_fundamental_div_mod_converse(m + 1, i, q + 1, 0);
    }
}

} // verus!
