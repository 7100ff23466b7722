use vstd::prelude::*;
use crate::draw::{Draws, RANDOM_TEMPO_MAX, RANDOM_TEMPO_MIN};
use crate::mode::ModeTag;
use crate::model::{elapsed_ms, next_beat_count, SchedulerView};
use crate::protocol::{Command, Event};
use crate::timing::beat_interval_ms;

verus! {

/// The state after a run of steps, each with its time and its random
/// values, and no command in between.
pub open spec fn stepped_all(state: SchedulerView, clock: Seq<(u64, Draws)>) -> SchedulerView
    decreases clock.len(),
{
    if clock.len() == 0 {
        state
    } else {
        stepped_all(state, clock.drop_last()).stepped(clock.last().0, clock.last().1)
    }
}

/// Every command and every step keeps a well-formed scheduler well-formed.
pub proof fn lemma_wf_is_kept(state: SchedulerView, command: Command, now_ms: u64, draws: Draws)
    requires
        state.wf(),
    ensures
        state.applied(command, now_ms).wf(),
        state.stepped(now_ms, draws).wf(),
{
}

/// `Stop` twice in a row leaves everything as the first `Stop` left it.
pub proof fn lemma_stop_is_idempotent(state: SchedulerView, first_ms: u64, second_ms: u64)
    ensures
        state.applied(Command::Stop, first_ms).applied(Command::Stop, second_ms) == state.applied(
            Command::Stop,
            first_ms,
        ),
        !state.applied(Command::Stop, first_ms).session.running,
{
}

/// `Stop` touches nothing but the running flag: no counter of any mode
/// moves.
pub proof fn lemma_stop_keeps_progress(state: SchedulerView, now_ms: u64)
    ensures
        state.applied(Command::Stop, now_ms) == (SchedulerView {
            session: crate::session::SessionState { running: false, ..state.session },
            ..state
        }),
{
}

/// A change of mode touches nothing but the active mode: the progress of
/// every mode is kept.
pub proof fn lemma_mode_switch_keeps_progress(state: SchedulerView, mode: ModeTag, now_ms: u64)
    ensures
        state.applied(Command::SetMode(mode), now_ms) == (SchedulerView {
            session: crate::session::SessionState { active_mode: mode, ..state.session },
            ..state
        }),
{
}

/// A stopped scheduler publishes nothing, plays nothing and stays stopped,
/// at whatever time it is stepped.
pub proof fn lemma_stopped_is_silent(state: SchedulerView, now_ms: u64, draws: Draws)
    requires
        !state.session.running,
    ensures
        state.step_events(now_ms, draws) == Seq::<Event>::empty(),
        state.step_sound(now_ms, draws).is_none(),
        state.stepped(now_ms, draws).session == state.session,
{
}

/// Only `Start` sets a stopped scheduler running.
pub proof fn lemma_only_start_resumes(state: SchedulerView, command: Command, now_ms: u64)
    requires
        !state.session.running,
        command != Command::Start,
    ensures
        !state.applied(command, now_ms).session.running,
{
}

/// A stopped scheduler stays silent through any run of steps: as long as no
/// command comes, no step of the run publishes or plays anything.
pub proof fn lemma_silent_until_started(state: SchedulerView, clock: Seq<(u64, Draws)>, i: int)
    requires
        !state.session.running,
        0 <= i < clock.len(),
    ensures
        !stepped_all(state, clock).session.running,
        stepped_all(state, clock.take(i)).step_events(clock[i].0, clock[i].1) == Seq::<
            Event,
        >::empty(),
        stepped_all(state, clock.take(i)).step_sound(clock[i].0, clock[i].1).is_none(),
{
    lemma_stays_stopped(state, clock);
    lemma_stays_stopped(state, clock.take(i));
}

/// A stopped scheduler is still stopped after any run of steps.
pub proof fn lemma_stays_stopped(state: SchedulerView, clock: Seq<(u64, Draws)>)
    requires
        !state.session.running,
    ensures
        !stepped_all(state, clock).session.running,
        stepped_all(state, clock).session == state.session,
    decreases clock.len(),
{
    if clock.len() > 0 {
        lemma_stays_stopped(state, clock.drop_last());
    }
}

/// A running countdown ends at the first step at or after its duration: the
/// step publishes `CountdownFinished` and nothing else, asks for the
/// celebration sound, and leaves the session stopped.
pub proof fn lemma_countdown_completes(state: SchedulerView, now_ms: u64, draws: Draws)
    requires
        state.session.running,
        state.session.active_mode == ModeTag::Countdown,
        elapsed_ms(now_ms, state.countdown_start_ms) >= state.countdown.duration_ms(),
    ensures
        state.step_events(now_ms, draws) == seq![Event::CountdownFinished],
        state.step_sound(now_ms, draws) == Some(state.celebration()),
        !state.stepped(now_ms, draws).session.running,
        state.stepped(now_ms, draws).countdown.remaining_ms == 0,
        state.stepped(now_ms, draws).session.beat_count == state.session.beat_count,
{
}

/// Before its duration has passed, a countdown does not end.
pub proof fn lemma_countdown_runs_until_duration(state: SchedulerView, now_ms: u64, draws: Draws)
    requires
        state.session.running,
        state.session.active_mode == ModeTag::Countdown,
        elapsed_ms(now_ms, state.countdown_start_ms) < state.countdown.duration_ms(),
    ensures
        !state.finishes(now_ms),
        state.stepped(now_ms, draws).session.running,
        forall|i: int|
            0 <= i < state.step_events(now_ms, draws).len() ==> state.step_events(now_ms, draws)[i]
                != Event::CountdownFinished,
{
}

/// A tempo that the random mode sets lies between 60 and 200, and is
/// announced before the beat.
pub proof fn lemma_random_tempo_in_range(state: SchedulerView, now_ms: u64, draws: Draws)
    requires
        draws.in_range(),
        state.uses_random_tempo(now_ms),
    ensures
        RANDOM_TEMPO_MIN <= state.stepped(now_ms, draws).session.tempo_bpm <= RANDOM_TEMPO_MAX,
        state.step_events(now_ms, draws).len() == 2,
        state.step_events(now_ms, draws)[0] == (Event::TempoChanged {
            bpm: state.stepped(now_ms, draws).session.tempo_bpm,
        }),
{
}

/// A step takes no random value that it has no use for: two steps from the
/// same state at the same time do the same, whatever the values that they
/// do not use.
pub proof fn lemma_unused_draws_are_ignored(
    state: SchedulerView,
    now_ms: u64,
    draws: Draws,
    others: Draws,
)
    requires
        state.uses_random_tempo(now_ms) ==> draws.random_tempo == others.random_tempo,
        state.uses_countdown_draws(now_ms) ==> draws.countdown_tempo == others.countdown_tempo
            && draws.countdown_delay_ms == others.countdown_delay_ms,
    ensures
        state.stepped(now_ms, draws) == state.stepped(now_ms, others),
        state.step_events(now_ms, draws) == state.step_events(now_ms, others),
        state.step_sound(now_ms, draws) == state.step_sound(now_ms, others),
{
}

/// A tick that fires counts one beat, publishes that beat last, with the new
/// count, and asks for a sound at a gain of at most full volume. A step that
/// fires no tick leaves the beat count alone.
pub proof fn lemma_fired_tick_counts_one_beat(state: SchedulerView, now_ms: u64, draws: Draws)
    ensures
        state.fires(now_ms, draws) ==> {
            &&& state.stepped(now_ms, draws).session.beat_count == next_beat_count(
                state.session.beat_count,
            )
            &&& state.stepped(now_ms, draws).session.last_beat_ms == now_ms
            &&& state.step_events(now_ms, draws).len() >= 1
            &&& state.step_events(now_ms, draws).last() matches Event::Beat { beat_count, .. }
                && beat_count == next_beat_count(state.session.beat_count)
            &&& state.step_sound(now_ms, draws) matches Some(sound) && sound.gain_permille <= 1000
        },
        !state.fires(now_ms, draws) ==> state.stepped(now_ms, draws).session.beat_count
            == state.session.beat_count,
{
}

/// At most one tick fires per beat interval: after a tick at `now_ms`, no
/// step fires another before the beat interval of the tempo then in effect
/// has passed.
pub proof fn lemma_one_tick_per_interval(
    state: SchedulerView,
    now_ms: u64,
    draws: Draws,
    later_ms: u64,
    later_draws: Draws,
)
    requires
        state.fires(now_ms, draws),
        elapsed_ms(later_ms, now_ms) < beat_interval_ms(
            state.stepped(now_ms, draws).after_clock(later_ms, later_draws).session.tempo_bpm,
            state.session.active_mode,
            state.subdivision.subdivision_factor,
        ),
    ensures
        state.stepped(now_ms, draws).last_tick_ms == now_ms,
        !state.stepped(now_ms, draws).fires(later_ms, later_draws),
{
}

} // verus!
