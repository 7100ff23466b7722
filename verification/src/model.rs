use vstd::prelude::*;
use crate::countdown::CountdownState;
use crate::draw::Draws;
use crate::mode::ModeTag;
use crate::polyrhythm::PolyrhythmState;
use crate::practice::PracticeView;
use crate::protocol::{Command, Event, SoundRequest, TickOutcome};
use crate::random::RandomState;
use crate::ritardando::RitardandoState;
use crate::session::SessionState;
use crate::subdivision::SubdivisionView;
use crate::timing::{
    beat_interval_ms, clamped_volume, gain_permille, played_sound, CELEBRATION_SOUND, POLL_MS,
};

verus! {

/// Everything the scheduler holds, as mathematical values.
pub struct SchedulerView {
    pub session: SessionState,
    pub random: RandomState,
    pub practice: PracticeView,
    pub polyrhythm: PolyrhythmState,
    pub ritardando: RitardandoState,
    pub subdivision: SubdivisionView,
    pub countdown: CountdownState,
    /// The running number of the next tick of the subdivision mode.
    pub subdivision_tick_index: u32,
    /// The time of the last tick, or of the last look at the clock while
    /// stopped.
    pub last_tick_ms: u64,
    /// The time at which the countdown started.
    pub countdown_start_ms: u64,
}

/// The time from `since_ms` to `now_ms`, and 0 where the clock has not
/// moved forward.
pub open spec fn elapsed_ms(now_ms: u64, since_ms: u64) -> u64 {
    if now_ms >= since_ms {
        (now_ms - since_ms) as u64
    } else {
        0
    }
}

/// The beat count after `beat_count`; it starts over once it has reached the
/// largest value.
pub open spec fn next_beat_count(beat_count: u32) -> u32 {
    if beat_count == u32::MAX {
        0
    } else {
        (beat_count + 1) as u32
    }
}

/// The event that a command makes the scheduler publish, if any.
pub open spec fn command_event(command: Command) -> Option<Event> {
    match command {
        Command::SetMode(mode) => Some(Event::ModeChanged { mode }),
        _ => None,
    }
}

/// The events that a queue of commands makes the scheduler publish, in the
/// order of the commands.
pub open spec fn command_events(commands: Seq<Command>) -> Seq<Event>
    decreases commands.len(),
{
    if commands.len() == 0 {
        Seq::empty()
    } else {
        match command_event(commands.last()) {
            Some(event) => command_events(commands.drop_last()).push(event),
            None => command_events(commands.drop_last()),
        }
    }
}

impl SchedulerView {
    pub open spec fn wf(self) -> bool {
        &&& self.session.wf()
        &&& self.random.wf()
        &&& self.practice.wf()
        &&& self.polyrhythm.wf()
        &&& self.ritardando.wf()
        &&& self.subdivision.wf()
        &&& self.countdown.wf()
    }

    /// The state after `Start` at `now_ms`, whether the session ran before or
    /// not: the session runs, the beat count and the timers start over, and
    /// the active mode starts afresh. The other modes keep their progress.
    pub open spec fn started(self, now_ms: u64) -> SchedulerView {
        let mode = self.session.active_mode;
        SchedulerView {
            session: SessionState {
                running: true,
                beat_count: 0,
                tempo_bpm: if mode == ModeTag::Ritardando {
                    self.ritardando.start_bpm
                } else {
                    self.session.tempo_bpm
                },
                ..self.session
            },
            random: if mode == ModeTag::Random {
                self.random.restarted()
            } else {
                self.random
            },
            practice: if mode == ModeTag::Practice {
                self.practice.restarted()
            } else {
                self.practice
            },
            ritardando: if mode == ModeTag::Ritardando {
                self.ritardando.restarted()
            } else {
                self.ritardando
            },
            countdown: if mode == ModeTag::Countdown {
                self.countdown.restarted(self.session.tempo_bpm)
            } else {
                self.countdown
            },
            subdivision_tick_index: 0,
            last_tick_ms: now_ms,
            countdown_start_ms: now_ms,
            ..self
        }
    }

    /// The state after one command, applied at `now_ms`.
    pub open spec fn applied(self, command: Command, now_ms: u64) -> SchedulerView {
        match command {
            Command::Start => self.started(now_ms),
            Command::Stop => SchedulerView {
                session: SessionState { running: false, ..self.session },
                ..self
            },
            Command::SetTempo(bpm) => SchedulerView {
                session: SessionState { tempo_bpm: bpm, ..self.session },
                ..self
            },
            Command::SetVolume(volume) => SchedulerView {
                session: SessionState { volume_percent: clamped_volume(volume), ..self.session },
                ..self
            },
            Command::SetSound(sound_id) => SchedulerView {
                session: SessionState { sound_id, ..self.session },
                ..self
            },
            Command::SetMode(mode) => SchedulerView {
                session: SessionState { active_mode: mode, ..self.session },
                ..self
            },
            Command::UpdateRandom { interval_beats } => SchedulerView {
                random: RandomState::with_interval(interval_beats),
                ..self
            },
            Command::UpdatePractice { sections } => SchedulerView {
                practice: self.practice.with_sections(sections@),
                ..self
            },
            Command::UpdatePolyrhythm { primary, secondary, accent_primary, accent_secondary } => {
                SchedulerView {
                    polyrhythm: PolyrhythmState {
                        primary_period: crate::polyrhythm::clamped_period(primary),
                        secondary_period: crate::polyrhythm::clamped_period(secondary),
                        accent_primary,
                        accent_secondary,
                    },
                    ..self
                }
            },
            Command::UpdateRitardando { start, target, ramp_length } => SchedulerView {
                ritardando: self.ritardando.with_settings(start, target, ramp_length),
                ..self
            },
            Command::UpdateSubdivision { factor, pattern } => SchedulerView {
                subdivision: SubdivisionView::with_settings(factor, pattern@),
                ..self
            },
            Command::UpdateCountdown { duration_seconds, randomize_tempo } => SchedulerView {
                countdown: self.countdown.with_settings(duration_seconds, randomize_tempo),
                ..self
            },
            Command::Reset => SchedulerView {
                session: SessionState { beat_count: 0, ..self.session },
                subdivision_tick_index: 0,
                ..self
            },
        }
    }

    /// The state after a queue of commands, applied in order at `now_ms`.
    pub open spec fn drained(self, commands: Seq<Command>, now_ms: u64) -> SchedulerView
        decreases commands.len(),
    {
        if commands.len() == 0 {
            self
        } else {
            self.drained(commands.drop_last(), now_ms).applied(commands.last(), now_ms)
        }
    }

    /// The running time of the countdown at `now_ms`.
    pub open spec fn countdown_elapsed(self, now_ms: u64) -> u64 {
        elapsed_ms(now_ms, self.countdown_start_ms)
    }

    /// Whether a step at `now_ms` ends the session: it runs in the countdown
    /// mode and no time is left.
    pub open spec fn finishes(self, now_ms: u64) -> bool {
        &&& self.session.running
        &&& self.session.active_mode == ModeTag::Countdown
        &&& self.countdown.remaining_at(self.countdown_elapsed(now_ms)) == 0
    }

    /// Whether a step at `now_ms` varies the tempo of a running countdown.
    pub open spec fn varies_tempo(self, now_ms: u64) -> bool {
        &&& self.session.running
        &&& self.session.active_mode == ModeTag::Countdown
        &&& self.countdown.randomizes_at(self.countdown_elapsed(now_ms))
    }

    /// The state of a running session after its look at the clock, which
    /// only the countdown mode takes: the time left is brought up to date,
    /// the session stops where none is left, and the tempo changes where it
    /// is varied now.
    pub open spec fn after_clock(self, now_ms: u64, draws: Draws) -> SchedulerView {
        if self.session.active_mode != ModeTag::Countdown {
            self
        } else {
            SchedulerView {
                session: SessionState {
                    running: !self.finishes(now_ms),
                    tempo_bpm: if self.varies_tempo(now_ms) {
                        draws.countdown_tempo
                    } else {
                        self.session.tempo_bpm
                    },
                    ..self.session
                },
                countdown: self.countdown.observed(
                    self.countdown_elapsed(now_ms),
                    draws.countdown_delay_ms,
                ),
                ..self
            }
        }
    }

    /// Whether a beat interval has passed at `now_ms` since the last tick.
    pub open spec fn tick_due(self, now_ms: u64) -> bool {
        elapsed_ms(now_ms, self.last_tick_ms) >= beat_interval_ms(
            self.session.tempo_bpm,
            self.session.active_mode,
            self.subdivision.subdivision_factor,
        )
    }

    /// What the active mode decides for a tick now.
    pub open spec fn mode_outcome(self, draws: Draws) -> TickOutcome {
        match self.session.active_mode {
            ModeTag::Standard => TickOutcome::spec_plain(),
            ModeTag::Random => self.random.outcome(draws.random_tempo),
            ModeTag::Practice => self.practice.outcome(),
            ModeTag::Polyrhythm => self.polyrhythm.outcome(self.session.beat_count),
            ModeTag::Ritardando => self.ritardando.outcome(),
            ModeTag::Subdivision => TickOutcome {
                accent: self.subdivision.accent_at(self.subdivision_tick_index),
                alternate_sound: false,
                tempo_override: None,
            },
            ModeTag::Countdown => TickOutcome {
                accent: self.countdown.accent_due(),
                alternate_sound: false,
                tempo_override: None,
            },
        }
    }

    /// The state after the active mode has counted a tick. No other mode
    /// moves.
    pub open spec fn after_mode_tick(self) -> SchedulerView {
        match self.session.active_mode {
            ModeTag::Random => SchedulerView { random: self.random.ticked(), ..self },
            ModeTag::Practice => SchedulerView { practice: self.practice.ticked(), ..self },
            ModeTag::Ritardando => SchedulerView { ritardando: self.ritardando.ticked(), ..self },
            ModeTag::Subdivision => SchedulerView {
                subdivision_tick_index: if self.subdivision_tick_index == u32::MAX {
                    0
                } else {
                    (self.subdivision_tick_index + 1) as u32
                },
                ..self
            },
            _ => self,
        }
    }

    /// The tempo after a tick with the given outcome.
    pub open spec fn tempo_after(self, outcome: TickOutcome) -> u32 {
        match outcome.tempo_override {
            Some(bpm) => bpm,
            None => self.session.tempo_bpm,
        }
    }

    /// The state after a tick at `now_ms`.
    pub open spec fn ticked(self, now_ms: u64, draws: Draws) -> SchedulerView {
        let outcome = self.mode_outcome(draws);
        let moved = self.after_mode_tick();
        SchedulerView {
            session: SessionState {
                tempo_bpm: self.tempo_after(outcome),
                beat_count: next_beat_count(self.session.beat_count),
                last_beat_ms: now_ms,
                ..self.session
            },
            last_tick_ms: now_ms,
            ..moved
        }
    }

    /// Whether the active mode announces the tempos that its ticks set: the
    /// random and the practice mode do.
    pub open spec fn announces_tempo(self) -> bool {
        self.session.active_mode == ModeTag::Random || self.session.active_mode
            == ModeTag::Practice
    }

    /// The events of a tick: the new tempo, where the mode announces one,
    /// then the beat.
    pub open spec fn tick_events(self, draws: Draws) -> Seq<Event> {
        let outcome = self.mode_outcome(draws);
        let beat = Event::Beat {
            beat_count: next_beat_count(self.session.beat_count),
            is_accent: outcome.accent,
        };
        match outcome.tempo_override {
            Some(bpm) if self.announces_tempo() => seq![Event::TempoChanged { bpm }, beat],
            _ => seq![beat],
        }
    }

    /// The sound of a tick.
    pub open spec fn tick_sound(self, draws: Draws) -> SoundRequest {
        let outcome = self.mode_outcome(draws);
        SoundRequest {
            sound_id: played_sound(self.session.sound_id, outcome.alternate_sound) as u32,
            gain_permille: gain_permille(self.session.volume_percent, outcome.accent) as u32,
        }
    }

    /// The sound that marks the end of a countdown, at the gain of an
    /// accent.
    pub open spec fn celebration(self) -> SoundRequest {
        SoundRequest {
            sound_id: CELEBRATION_SOUND,
            gain_permille: gain_permille(self.session.volume_percent, true) as u32,
        }
    }

    /// Whether a step at `now_ms` fires a tick.
    pub open spec fn fires(self, now_ms: u64, draws: Draws) -> bool {
        &&& self.session.running
        &&& !self.finishes(now_ms)
        &&& self.after_clock(now_ms, draws).tick_due(now_ms)
    }

    /// The state after the step at `now_ms`.
    ///
    /// A stopped session only moves its timers along. A running one first
    /// looks at the clock; if that ends the session nothing else happens,
    /// else a tick fires if a beat interval has passed.
    pub open spec fn stepped(self, now_ms: u64, draws: Draws) -> SchedulerView {
        if !self.session.running {
            SchedulerView { subdivision_tick_index: 0, last_tick_ms: now_ms, ..self }
        } else if self.fires(now_ms, draws) {
            self.after_clock(now_ms, draws).ticked(now_ms, draws)
        } else {
            self.after_clock(now_ms, draws)
        }
    }

    /// The events that the step at `now_ms` publishes, in order.
    pub open spec fn step_events(self, now_ms: u64, draws: Draws) -> Seq<Event> {
        let varied: Seq<Event> = if self.varies_tempo(now_ms) {
            seq![Event::TempoChanged { bpm: draws.countdown_tempo }]
        } else {
            Seq::empty()
        };
        if !self.session.running {
            Seq::empty()
        } else if self.finishes(now_ms) {
            seq![Event::CountdownFinished]
        } else if self.fires(now_ms, draws) {
            varied + self.after_clock(now_ms, draws).tick_events(draws)
        } else {
            varied
        }
    }

    /// The sound that the step at `now_ms` asks for, if any.
    pub open spec fn step_sound(self, now_ms: u64, draws: Draws) -> Option<SoundRequest> {
        if !self.session.running {
            None
        } else if self.finishes(now_ms) {
            Some(self.celebration())
        } else if self.fires(now_ms, draws) {
            Some(self.after_clock(now_ms, draws).tick_sound(draws))
        } else {
            None
        }
    }

    /// How long to sleep after the step at `now_ms`, in milliseconds: not
    /// at all after the end of a countdown, one poll interval otherwise.
    pub open spec fn step_pause_ms(self, now_ms: u64) -> u64 {
        if self.finishes(now_ms) {
            0
        } else {
            POLL_MS
        }
    }

    /// Whether the step at `now_ms` takes the tempo drawn for the random
    /// mode.
    pub open spec fn uses_random_tempo(self, now_ms: u64) -> bool {
        &&& self.session.running
        &&& self.session.active_mode == ModeTag::Random
        &&& self.tick_due(now_ms)
        &&& self.random.draw_due()
    }

    /// Whether the step at `now_ms` takes the tempo and the delay drawn for
    /// the countdown.
    pub open spec fn uses_countdown_draws(self, now_ms: u64) -> bool {
        self.varies_tempo(now_ms)
    }
}

} // verus!
