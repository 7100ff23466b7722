use vstd::prelude::*;

verus! {

pub const DURATION_SECONDS_DEFAULT: u32 = 60;

/// The time after a start until a countdown first varies its tempo.
pub const FIRST_RANDOMIZATION_MS: u64 = 5000;

/// A countdown accents the ticks of the first half second after each full
/// ten seconds.
pub const ACCENT_PERIOD_MS: u64 = 10000;

pub const ACCENT_WINDOW_MS: u64 = 500;

/// The countdown mode: the session ends by itself once `duration_seconds`
/// of running time have passed. Times are whole milliseconds.
#[derive(Clone, Copy, Debug, PartialEq, Eq, Structural)]
pub struct CountdownState {
    pub duration_seconds: u32,
    /// The time left, as of the last look at the clock.
    pub remaining_ms: u64,
    pub randomize_tempo: bool,
    /// The tempo that was in effect when the countdown started.
    pub baseline_bpm: u32,
    /// The time until the tempo is next varied, as of the last look at the
    /// clock.
    pub next_randomization_in_ms: u64,
}

/// How near the end of a countdown is.
#[derive(Clone, Copy, Debug, PartialEq, Eq, Structural)]
pub enum Urgency {
    /// More than 30 seconds are left.
    Relaxed,
    /// More than 10 and at most 30 seconds are left.
    Near,
    /// At most 10 seconds are left.
    Imminent,
}

/// What a look at the clock finds.
#[derive(Clone, Copy, Debug, PartialEq, Eq, Structural)]
pub enum CountdownStatus {
    /// No time is left: the session is over.
    Finished,
    /// Time is left. `new_tempo` is the tempo to go on with, if it is to
    /// change now.
    Running { new_tempo: Option<u32> },
}

impl CountdownState {
    pub open spec fn wf(self) -> bool {
        self.remaining_ms <= self.duration_ms()
    }

    pub open spec fn duration_ms(self) -> int {
        self.duration_seconds * 1000
    }

    /// The time left once `elapsed_ms` have passed since the start.
    pub open spec fn remaining_at(self, elapsed_ms: u64) -> u64 {
        if elapsed_ms >= self.duration_ms() {
            0
        } else {
            (self.duration_ms() - elapsed_ms) as u64
        }
    }

    /// The time that has passed between the last look at the clock and the
    /// one at `elapsed_ms`.
    pub open spec fn passed_at(self, elapsed_ms: u64) -> int {
        if self.remaining_ms >= self.remaining_at(elapsed_ms) {
            self.remaining_ms - self.remaining_at(elapsed_ms)
        } else {
            0
        }
    }

    /// Whether the tempo is to be varied at `elapsed_ms`: the countdown is
    /// still running, varies its tempo, and the time until the next
    /// variation has run out.
    pub open spec fn randomizes_at(self, elapsed_ms: u64) -> bool {
        &&& self.remaining_at(elapsed_ms) > 0
        &&& self.randomize_tempo
        &&& self.next_randomization_in_ms <= self.passed_at(elapsed_ms)
    }

    /// What a look at the clock at `elapsed_ms` finds, with `drawn_tempo` as
    /// the tempo to take if the tempo is varied now.
    pub open spec fn status_at(self, elapsed_ms: u64, drawn_tempo: u32) -> CountdownStatus {
        if self.remaining_at(elapsed_ms) == 0 {
            CountdownStatus::Finished
        } else {
            CountdownStatus::Running {
                new_tempo: if self.randomizes_at(elapsed_ms) {
                    Some(drawn_tempo)
                } else {
                    None
                },
            }
        }
    }

    /// The state after a look at the clock at `elapsed_ms`, with
    /// `drawn_delay_ms` as the time to wait after a variation of the tempo
    /// for the next one.
    pub open spec fn observed(self, elapsed_ms: u64, drawn_delay_ms: u32) -> CountdownState {
        CountdownState {
            duration_seconds: self.duration_seconds,
            remaining_ms: self.remaining_at(elapsed_ms),
            randomize_tempo: self.randomize_tempo,
            baseline_bpm: self.baseline_bpm,
            next_randomization_in_ms: if self.remaining_at(elapsed_ms) == 0
                || !self.randomize_tempo {
                self.next_randomization_in_ms
            } else if self.randomizes_at(elapsed_ms) {
                drawn_delay_ms as u64
            } else {
                (self.next_randomization_in_ms - self.passed_at(elapsed_ms)) as u64
            },
        }
    }

    /// The running time as of the last look at the clock.
    pub open spec fn elapsed_ms(self) -> int {
        if self.remaining_ms <= self.duration_ms() {
            self.duration_ms() - self.remaining_ms
        } else {
            0
        }
    }

    /// Whether a tick now is accented.
    pub open spec fn accent_due(self) -> bool {
        self.elapsed_ms() % (ACCENT_PERIOD_MS as int) < ACCENT_WINDOW_MS
    }

    /// The part of the duration that has passed, in thousandths; 0 for a
    /// countdown without duration.
    pub open spec fn progress_permille(self) -> int {
        if self.duration_seconds == 0 {
            0
        } else {
            self.elapsed_ms() * 1000 / self.duration_ms()
        }
    }

    pub open spec fn urgency(self) -> Urgency {
        if self.remaining_ms <= 10000 {
            Urgency::Imminent
        } else if self.remaining_ms <= 30000 {
            Urgency::Near
        } else {
            Urgency::Relaxed
        }
    }

    /// The state at a fresh start, with `tempo` as the tempo in effect.
    pub open spec fn restarted(self, tempo: u32) -> CountdownState {
        CountdownState {
            duration_seconds: self.duration_seconds,
            remaining_ms: self.duration_ms() as u64,
            randomize_tempo: self.randomize_tempo,
            baseline_bpm: tempo,
            next_randomization_in_ms: FIRST_RANDOMIZATION_MS,
        }
    }

    /// The state with other settings. No more time remains than the new
    /// duration.
    pub open spec fn with_settings(self, duration_seconds: u32, randomize_tempo: bool) -> CountdownState {
        CountdownState {
            duration_seconds,
            remaining_ms: if self.remaining_ms <= duration_seconds * 1000 {
                self.remaining_ms
            } else {
                (duration_seconds * 1000) as u64
            },
            randomize_tempo,
            baseline_bpm: self.baseline_bpm,
            next_randomization_in_ms: self.next_randomization_in_ms,
        }
    }

    /// A countdown of `duration_seconds` that has not begun, with `tempo` as
    /// its baseline.
    pub fn new(duration_seconds: u32, randomize_tempo: bool, tempo: u32) -> (state: CountdownState)
        ensures
            state.duration_seconds == duration_seconds,
            state.remaining_ms == state.duration_ms(),
            state.randomize_tempo == randomize_tempo,
            state.baseline_bpm == tempo,
            state.next_randomization_in_ms == FIRST_RANDOMIZATION_MS,
            state.wf(),
    {
        CountdownState {
            duration_seconds,
            remaining_ms: duration_seconds as u64 * 1000,
            randomize_tempo,
            baseline_bpm: tempo,
            next_randomization_in_ms: FIRST_RANDOMIZATION_MS,
        }
    }

    pub fn restart(&mut self, tempo: u32)
        ensures
            *final(self) == old(self).restarted(tempo),
            final(self).wf(),
    {
        self.remaining_ms = self.duration_seconds as u64 * 1000;
        self.baseline_bpm = tempo;
        self.next_randomization_in_ms = FIRST_RANDOMIZATION_MS;
    }

    pub fn set(&mut self, duration_seconds: u32, randomize_tempo: bool)
        ensures
            *final(self) == old(self).with_settings(duration_seconds, randomize_tempo),
            final(self).wf(),
    {
        let duration_ms: u64 = duration_seconds as u64 * 1000;
        self.duration_seconds = duration_seconds;
        self.randomize_tempo = randomize_tempo;
        if self.remaining_ms > duration_ms {
            self.remaining_ms = duration_ms;
        }
    }

    /// Whether a look at the clock at `elapsed_ms` varies the tempo.
    pub fn is_randomization_due(&self, elapsed_ms: u64) -> (due: bool)
        ensures
            due == self.randomizes_at(elapsed_ms),
    {
        let remaining: u64 = (self.duration_seconds as u64 * 1000).saturating_sub(elapsed_ms);
        let passed: u64 = self.remaining_ms.saturating_sub(remaining);
        remaining > 0 && self.randomize_tempo && self.next_randomization_in_ms <= passed
    }

    /// A look at the clock, `elapsed_ms` after the start.
    pub fn observe(&mut self, elapsed_ms: u64, drawn_tempo: u32, drawn_delay_ms: u32) -> (status:
        CountdownStatus)
        ensures
            *final(self) == old(self).observed(elapsed_ms, drawn_delay_ms),
            status == old(self).status_at(elapsed_ms, drawn_tempo),
            final(self).wf(),
    {
        let remaining: u64 = (self.duration_seconds as u64 * 1000).saturating_sub(elapsed_ms);
        let passed: u64 = self.remaining_ms.saturating_sub(remaining);
        self.remaining_ms = remaining;
        if remaining == 0 {
            return CountdownStatus::Finished;
        }
        if !self.randomize_tempo {
            return CountdownStatus::Running { new_tempo: None };
        }
        if self.next_randomization_in_ms <= passed {
            self.next_randomization_in_ms = drawn_delay_ms as u64;
            CountdownStatus::Running { new_tempo: Some(drawn_tempo) }
        } else {
            self.next_randomization_in_ms = self.next_randomization_in_ms - passed;
            CountdownStatus::Running { new_tempo: None }
        }
    }

    /// The time left as whole minutes and the whole seconds beyond them.
    pub fn minutes_and_seconds(&self) -> (left: (u64, u64))
        ensures
            left.0 == self.remaining_ms / 60000,
            left.1 == (self.remaining_ms / 1000) % 60,
            left.0 * 60 + left.1 == self.remaining_ms / 1000,
    {
        let seconds: u64 = self.remaining_ms / 1000;
        (seconds / 60, seconds % 60)
    }

    pub fn compute_progress_permille(&self) -> (progress: u32)
        ensures
            progress == self.progress_permille(),
            progress <= 1000,
    {
        if self.duration_seconds == 0 {
            return 0;
        }
        let duration_ms: u64 = self.duration_seconds as u64 * 1000;
        let elapsed: u64 = duration_ms.saturating_sub(self.remaining_ms);
        assert(elapsed * 1000 / (duration_ms as int) <= 1000) by (nonlinear_arith)
            requires
                elapsed <= duration_ms,
                duration_ms > 0,
        ;
        (elapsed * 1000 / duration_ms) as u32
    }

    pub fn compute_urgency(&self) -> (urgency: Urgency)
        ensures
            urgency == self.urgency(),
    {
        if self.remaining_ms <= 10000 {
            Urgency::Imminent
        } else if self.remaining_ms <= 30000 {
            Urgency::Near
        } else {
            Urgency::Relaxed
        }
    }

    pub fn is_accent_due(&self) -> (due: bool)
        ensures
            due == self.accent_due(),
    {
        let duration_ms: u64 = self.duration_seconds as u64 * 1000;
        let elapsed: u64 = duration_ms.saturating_sub(self.remaining_ms);
        elapsed % ACCENT_PERIOD_MS < ACCENT_WINDOW_MS
    }
}

/// Once the running time has reached the duration, every look at the clock
/// finds the countdown finished.
pub proof fn lemma_finished_after_duration(state: CountdownState, elapsed_ms: u64, drawn: u32)
    requires
        elapsed_ms >= state.duration_ms(),
    ensures
        state.status_at(elapsed_ms, drawn) == CountdownStatus::Finished,
        state.observed(elapsed_ms, drawn).remaining_ms == 0,
{
}

} // verus!
