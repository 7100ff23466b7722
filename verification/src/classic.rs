use vstd::prelude::*;
use crate::controls::{move_within, moved_within, remaining_for_count, BPM_MAX, BPM_MIN};
use crate::draw::{uniform_in, RANDOM_TEMPO_MAX, RANDOM_TEMPO_MIN};
use crate::mode::ModeTag;
use crate::random::{RandomState, INTERVAL_BEATS_MAX, INTERVAL_BEATS_MIN};
use crate::timing::compute_beat_interval_ms;

verus! {

/// The state of the plain metronome: a tempo, and a random mode that draws
/// a new tempo every `random_count` ticks.
#[derive(Clone, Copy, Debug, PartialEq, Eq, Structural)]
pub struct MetronomeState {
    pub bpm: u32,
    pub is_running: bool,
    pub random_mode: bool,
    pub random_count: u32,
    pub remaining_ticks: u32,
}

impl MetronomeState {
    pub open spec fn initial() -> MetronomeState {
        MetronomeState {
            bpm: 120,
            is_running: false,
            random_mode: false,
            random_count: 100,
            remaining_ticks: 0,
        }
    }

    /// The random mode, seen as the random mode of the scheduler: the count
    /// setting is its interval, the ticks left are its beats left.
    pub open spec fn countdown(self) -> RandomState {
        RandomState { interval_beats: self.random_count, remaining_beats: self.remaining_ticks }
    }

    /// The count setting lies between 10 and 500 and no more ticks are left
    /// than it counts.
    pub open spec fn wf(self) -> bool {
        self.countdown().wf()
    }

    /// The state after the start/stop key. A start in the random mode sets
    /// the ticks left to the full count; a stop resets nothing.
    pub open spec fn metronome_toggled(self) -> MetronomeState {
        MetronomeState {
            is_running: !self.is_running,
            remaining_ticks: if !self.is_running && self.random_mode {
                self.random_count
            } else {
                self.remaining_ticks
            },
            ..self
        }
    }

    /// The state after the random mode key.
    pub open spec fn random_mode_toggled(self) -> MetronomeState {
        MetronomeState {
            random_mode: !self.random_mode,
            remaining_ticks: if self.random_mode {
                0
            } else if self.is_running {
                self.random_count
            } else {
                self.remaining_ticks
            },
            ..self
        }
    }

    /// The state after the count of the random mode has moved by `change`.
    /// The count stays between 10 and 500, and no more ticks are left than
    /// it counts.
    pub open spec fn random_count_adjusted(self, change: i32) -> MetronomeState {
        let count = moved_within(self.random_count, change, INTERVAL_BEATS_MIN, INTERVAL_BEATS_MAX);
        MetronomeState {
            random_count: count,
            remaining_ticks: remaining_for_count(
                self.random_mode && self.is_running,
                self.remaining_ticks,
                count,
            ),
            ..self
        }
    }

    /// The state after a tick, with `drawn` as the tempo to take if the
    /// random mode is to change the tempo at this tick.
    pub open spec fn tick_counted(self, drawn: u32) -> MetronomeState {
        MetronomeState {
            remaining_ticks: if self.random_mode {
                self.countdown().ticked().remaining_beats
            } else {
                self.remaining_ticks
            },
            bpm: if self.random_mode && self.countdown().draw_due() {
                drawn
            } else {
                self.bpm
            },
            ..self
        }
    }

    pub fn new() -> (state: MetronomeState)
        ensures
            state == Self::initial(),
            state.wf(),
    {
        MetronomeState {
            bpm: 120,
            is_running: false,
            random_mode: false,
            random_count: 100,
            remaining_ticks: 0,
        }
    }
}

pub fn toggle_metronome(state: &mut MetronomeState)
    ensures
        *final(state) == old(state).metronome_toggled(),
        old(state).wf() ==> final(state).wf(),
{
    state.is_running = !state.is_running;
    if state.is_running && state.random_mode {
        state.remaining_ticks = state.random_count;
    }
}

pub fn toggle_random_mode(state: &mut MetronomeState)
    ensures
        *final(state) == old(state).random_mode_toggled(),
        old(state).wf() ==> final(state).wf(),
{
    state.random_mode = !state.random_mode;
    if state.random_mode {
        if state.is_running {
            state.remaining_ticks = state.random_count;
        }
    } else {
        state.remaining_ticks = 0;
    }
}

pub fn adjust_bpm(state: &mut MetronomeState, change: i32)
    ensures
        *final(state) == (MetronomeState {
            bpm: moved_within(old(state).bpm, change, BPM_MIN, BPM_MAX),
            ..*old(state)
        }),
        BPM_MIN <= final(state).bpm <= BPM_MAX,
        old(state).wf() ==> final(state).wf(),
{
    state.bpm = move_within(state.bpm, change, BPM_MIN, BPM_MAX);
}

pub fn adjust_random_count(state: &mut MetronomeState, change: i32)
    ensures
        *final(state) == old(state).random_count_adjusted(change),
        INTERVAL_BEATS_MIN <= final(state).random_count <= INTERVAL_BEATS_MAX,
        final(state).remaining_ticks <= final(state).random_count,
        final(state).wf(),
{
    let count: u32 = move_within(state.random_count, change, INTERVAL_BEATS_MIN, INTERVAL_BEATS_MAX);
    state.random_count = count;
    if (state.random_mode && state.is_running) || state.remaining_ticks > count {
        state.remaining_ticks = count;
    }
}

/// Whether a running metronome is to tick, `elapsed_ms` after its last
/// tick. A tempo of 0 counts as 1.
pub fn tick_due(state: &MetronomeState, elapsed_ms: u64) -> (due: bool)
    ensures
        due == (state.is_running && elapsed_ms >= crate::timing::beat_interval_ms(
            state.bpm,
            ModeTag::Standard,
            1,
        )),
{
    state.is_running && elapsed_ms >= compute_beat_interval_ms(state.bpm, ModeTag::Standard, 1)
}

/// Counts a tick, with `drawn` as the tempo to take if the random mode is
/// to change the tempo at this tick.
pub fn count_tick_with(state: &mut MetronomeState, drawn: u32)
    ensures
        *final(state) == old(state).tick_counted(drawn),
        old(state).wf() ==> final(state).wf(),
{
    if state.random_mode {
        let mut countdown = RandomState {
            interval_beats: state.random_count,
            remaining_beats: state.remaining_ticks,
        };
        let outcome = countdown.tick_with(drawn);
        state.remaining_ticks = countdown.remaining_beats;
        match outcome.tempo_override {
            Some(bpm) => {
                state.bpm = bpm;
            },
            None => {},
        }
    }
}

/// Counts a tick. Where the random mode is to change the tempo at this
/// tick, the new tempo is drawn uniformly from 60 to 200.
pub fn count_tick(state: &mut MetronomeState)
    ensures
        exists|drawn: u32|
            RANDOM_TEMPO_MIN <= drawn <= RANDOM_TEMPO_MAX && *final(state)
                == #[trigger] old(state).tick_counted(drawn),
        old(state).wf() ==> final(state).wf(),
{
    let due = state.random_mode && (RandomState {
        interval_beats: state.random_count,
        remaining_beats: state.remaining_ticks,
    }).is_draw_due();
    let drawn: u32 = if due {
        uniform_in(RANDOM_TEMPO_MIN, RANDOM_TEMPO_MAX)
    } else {
        RANDOM_TEMPO_MIN
    };
    count_tick_with(state, drawn);
}

/// A start in the random mode always begins with the full count, whatever
/// was left when the metronome was stopped; a stop leaves the count alone.
pub proof fn lemma_start_refills_count(state: MetronomeState)
    ensures
        !state.is_running && state.random_mode ==> state.metronome_toggled().is_running
            && state.metronome_toggled().remaining_ticks == state.random_count,
        state.is_running ==> !state.metronome_toggled().is_running
            && state.metronome_toggled().remaining_ticks == state.remaining_ticks,
{
}

/// However the count setting is moved, it stays between 10 and 500 and no
/// more ticks are left than it counts.
pub proof fn lemma_count_bounds_the_ticks_left(state: MetronomeState, change: i32)
    ensures
        state.random_count_adjusted(change).wf(),
{
}

} // verus!
