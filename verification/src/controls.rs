use vstd::prelude::*;
use crate::draw::{uniform_in, RANDOM_TEMPO_MAX, RANDOM_TEMPO_MIN};
use crate::random::{RandomState, INTERVAL_BEATS_MAX, INTERVAL_BEATS_MIN};
use crate::state::AtomicState;
use crate::timing::compute_beat_interval_ms;
use crate::mode::ModeTag;

verus! {

pub const BPM_MIN: u32 = 30;

pub const BPM_MAX: u32 = 300;

pub const VOLUME_MAX: u32 = 100;

/// The longest that the console sleeps between two looks at the clock.
pub const SLEEP_MAX_MS: u64 = 2;

/// `value + change`, kept within `low` and `high`.
pub open spec fn moved_within(value: u32, change: i32, low: u32, high: u32) -> u32 {
    if value + change < low {
        low
    } else if value + change > high {
        high
    } else {
        (value + change) as u32
    }
}

pub fn move_within(value: u32, change: i32, low: u32, high: u32) -> (moved: u32)
    ensures
        moved == moved_within(value, change, low, high),
        low <= high ==> low <= moved <= high,
{
    let sum: i64 = value as i64 + change as i64;
    if sum < low as i64 {
        low
    } else if sum > high as i64 {
        high
    } else {
        sum as u32
    }
}

/// The state after the start/stop key. A start sets the tick count to 0
/// and, in the random mode, the ticks left to the full count; a stop
/// resets nothing.
pub open spec fn metronome_toggled(state: AtomicState) -> AtomicState {
    AtomicState {
        is_running: !state.is_running,
        remaining_ticks: if !state.is_running && state.random_mode {
            state.random_count
        } else {
            state.remaining_ticks
        },
        tick_count: if !state.is_running {
            0
        } else {
            state.tick_count
        },
        ui_dirty: true,
        ..state
    }
}

/// The state after the random mode key.
pub open spec fn random_mode_toggled(state: AtomicState) -> AtomicState {
    AtomicState {
        random_mode: !state.random_mode,
        remaining_ticks: if state.random_mode {
            0
        } else if state.is_running {
            state.random_count
        } else {
            state.remaining_ticks
        },
        ui_dirty: true,
        ..state
    }
}

/// The ticks left once the count setting of the random mode is `count`:
/// the full count while the random mode runs, and otherwise what was left,
/// cut to the count where it was more.
pub open spec fn remaining_for_count(counting: bool, remaining: u32, count: u32) -> u32 {
    if counting || remaining > count {
        count
    } else {
        remaining
    }
}

/// The state after the count of the random mode has moved by `change`. The
/// count stays between 10 and 500.
pub open spec fn random_count_adjusted(state: AtomicState, change: i32) -> AtomicState {
    let count = moved_within(state.random_count, change, INTERVAL_BEATS_MIN, INTERVAL_BEATS_MAX);
    AtomicState {
        random_count: count,
        remaining_ticks: remaining_for_count(
            state.random_mode && state.is_running,
            state.remaining_ticks,
            count,
        ),
        ui_dirty: true,
        ..state
    }
}

/// The state after a tick at `now_nanos`, with `drawn` as the tempo to take
/// if the random mode is to change the tempo at this tick.
pub open spec fn tick_counted(state: AtomicState, now_nanos: u64, drawn: u32) -> AtomicState {
    AtomicState {
        last_tick_time: now_nanos,
        tick_count: state.next_tick_count(),
        remaining_ticks: if state.random_mode {
            state.countdown().ticked().remaining_beats
        } else {
            state.remaining_ticks
        },
        bpm: if state.random_mode && state.countdown().draw_due() {
            drawn
        } else {
            state.bpm
        },
        ..state
    }
}

/// How long to sleep when no tick is due: the time to the next tick, and
/// not more than two milliseconds.
pub open spec fn sleep_ms(interval_ms: u64, elapsed_ms: u64) -> u64 {
    if elapsed_ms >= interval_ms {
        0
    } else if interval_ms - elapsed_ms > SLEEP_MAX_MS {
        SLEEP_MAX_MS
    } else {
        (interval_ms - elapsed_ms) as u64
    }
}

pub fn toggle_metronome(state: &mut AtomicState)
    ensures
        *final(state) == metronome_toggled(*old(state)),
        old(state).wf() ==> final(state).wf(),
{
    let was_running = state.is_running;
    state.is_running = !was_running;
    if !was_running && state.random_mode {
        state.remaining_ticks = state.random_count;
    }
    if !was_running {
        state.tick_count = 0;
    }
    state.ui_dirty = true;
}

pub fn toggle_random_mode(state: &mut AtomicState)
    ensures
        *final(state) == random_mode_toggled(*old(state)),
        old(state).wf() ==> final(state).wf(),
{
    let was_random = state.random_mode;
    state.random_mode = !was_random;
    if !was_random {
        if state.is_running {
            state.remaining_ticks = state.random_count;
        }
    } else {
        state.remaining_ticks = 0;
    }
    state.ui_dirty = true;
}

pub fn adjust_bpm(state: &mut AtomicState, change: i32)
    ensures
        *final(state) == (AtomicState {
            bpm: moved_within(old(state).bpm, change, BPM_MIN, BPM_MAX),
            ui_dirty: true,
            ..*old(state)
        }),
        BPM_MIN <= final(state).bpm <= BPM_MAX,
        old(state).wf() ==> final(state).wf(),
{
    state.bpm = move_within(state.bpm, change, BPM_MIN, BPM_MAX);
    state.ui_dirty = true;
}

pub fn adjust_random_count(state: &mut AtomicState, change: i32)
    ensures
        *final(state) == random_count_adjusted(*old(state), change),
        INTERVAL_BEATS_MIN <= final(state).random_count <= INTERVAL_BEATS_MAX,
        final(state).remaining_ticks <= final(state).random_count,
        final(state).countdown().wf(),
        old(state).wf() ==> final(state).wf(),
{
    let count: u32 = move_within(state.random_count, change, INTERVAL_BEATS_MIN, INTERVAL_BEATS_MAX);
    state.random_count = count;
    if (state.random_mode && state.is_running) || state.remaining_ticks > count {
        state.remaining_ticks = count;
    }
    state.ui_dirty = true;
}

pub fn adjust_volume(state: &mut AtomicState, change: i32)
    ensures
        *final(state) == (AtomicState {
            volume: moved_within(old(state).volume, change, 0, VOLUME_MAX),
            ui_dirty: true,
            ..*old(state)
        }),
        final(state).volume <= VOLUME_MAX,
        old(state).countdown().wf() ==> final(state).wf(),
{
    state.volume = move_within(state.volume, change, 0, VOLUME_MAX);
    state.ui_dirty = true;
}

pub fn set_preset_bpm(state: &mut AtomicState, bpm: u32)
    ensures
        *final(state) == (AtomicState { bpm, ui_dirty: true, ..*old(state) }),
        old(state).wf() ==> final(state).wf(),
{
    state.bpm = bpm;
    state.ui_dirty = true;
}

pub fn cycle_sound(state: &mut AtomicState, forward: bool)
    ensures
        *final(state) == (AtomicState {
            sound_type: (if forward {
                old(state).sound().spec_next()
            } else {
                old(state).sound().spec_prev()
            }).spec_index() as u32,
            ui_dirty: true,
            ..*old(state)
        }),
        final(state).sound() == (if forward {
            old(state).sound().spec_next()
        } else {
            old(state).sound().spec_prev()
        }),
        old(state).wf() ==> final(state).wf(),
{
    let current = state.get_sound_type();
    let new_sound = if forward {
        current.next()
    } else {
        current.prev()
    };
    state.set_sound_type(new_sound);
    state.ui_dirty = true;
}

/// Whether a running metronome is to tick, `elapsed_ms` after its last
/// tick. A tempo of 0 counts as 1.
pub fn tick_due(state: &AtomicState, elapsed_ms: u64) -> (due: bool)
    ensures
        due == (state.is_running && elapsed_ms >= crate::timing::beat_interval_ms(
            state.bpm,
            ModeTag::Standard,
            1,
        )),
{
    state.is_running && elapsed_ms >= compute_beat_interval_ms(state.bpm, ModeTag::Standard, 1)
}

/// How long to sleep when no tick is due.
pub fn sleep_before_next_tick(interval_ms: u64, elapsed_ms: u64) -> (ms: u64)
    ensures
        ms == sleep_ms(interval_ms, elapsed_ms),
        ms <= SLEEP_MAX_MS,
{
    let left: u64 = interval_ms.saturating_sub(elapsed_ms);
    if left > SLEEP_MAX_MS {
        SLEEP_MAX_MS
    } else {
        left
    }
}

/// Counts a tick at `now_nanos`, with `drawn` as the tempo to take if the
/// random mode is to change the tempo at this tick.
pub fn count_tick_with(state: &mut AtomicState, now_nanos: u64, drawn: u32)
    ensures
        *final(state) == tick_counted(*old(state), now_nanos, drawn),
        old(state).wf() ==> final(state).wf(),
{
    state.update_tick(now_nanos);
    if state.random_mode {
        let mut countdown = RandomState {
            interval_beats: state.random_count,
            remaining_beats: state.remaining_ticks,
        };
        let outcome = countdown.tick_with(drawn);
        state.remaining_ticks = countdown.remaining_beats;
        match outcome.tempo_override {
            Some(bpm) => {
                state.bpm = bpm;
            },
            None => {},
        }
    }
}

/// Counts a tick at `now_nanos`. Where the random mode is to change the
/// tempo at this tick, the new tempo is drawn uniformly from 60 to 200.
pub fn count_tick(state: &mut AtomicState, now_nanos: u64)
    ensures
        exists|drawn: u32|
            RANDOM_TEMPO_MIN <= drawn <= RANDOM_TEMPO_MAX && *final(state)
                == #[trigger] tick_counted(*old(state), now_nanos, drawn),
        old(state).wf() ==> final(state).wf(),
{
    let due = state.random_mode && (RandomState {
        interval_beats: state.random_count,
        remaining_beats: state.remaining_ticks,
    }).is_draw_due();
    let drawn: u32 = if due {
        uniform_in(RANDOM_TEMPO_MIN, RANDOM_TEMPO_MAX)
    } else {
        RANDOM_TEMPO_MIN
    };
    count_tick_with(state, now_nanos, drawn);
}

/// A start in the random mode always begins with the full count, whatever
/// was left when the metronome was stopped; a stop leaves the count alone.
pub proof fn lemma_start_refills_count(state: AtomicState)
    ensures
        !state.is_running ==> metronome_toggled(state).is_running && metronome_toggled(
            state,
        ).tick_count == 0,
        !state.is_running && state.random_mode ==> metronome_toggled(state).remaining_ticks
            == state.random_count,
        state.is_running ==> !metronome_toggled(state).is_running && metronome_toggled(
            state,
        ).remaining_ticks == state.remaining_ticks && metronome_toggled(state).tick_count
            == state.tick_count,
{
}

/// However the count setting is moved, it stays between 10 and 500 and no
/// more ticks are left than it counts.
pub proof fn lemma_count_bounds_the_ticks_left(state: AtomicState, change: i32)
    ensures
        random_count_adjusted(state, change).countdown().wf(),
{
}

} // verus!
