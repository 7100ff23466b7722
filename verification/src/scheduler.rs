use vstd::prelude::*;
use crate::countdown::{CountdownState, CountdownStatus, DURATION_SECONDS_DEFAULT};
use crate::draw::{
    uniform_in, Draws, COUNTDOWN_DELAY_MAX_MS, COUNTDOWN_DELAY_MIN_MS, COUNTDOWN_TEMPO_MAX,
    COUNTDOWN_TEMPO_MIN, RANDOM_TEMPO_MAX, RANDOM_TEMPO_MIN,
};
use crate::mode::ModeTag;
use crate::model::{command_event, command_events, SchedulerView};
use crate::polyrhythm::PolyrhythmState;
use crate::practice::{default_sections, PracticeState};
use crate::protocol::{Command, Event, SoundRequest, TickOutcome};
use crate::random::{RandomState, INTERVAL_BEATS_DEFAULT};
use crate::ritardando::RitardandoState;
use crate::session::{SessionState, TEMPO_DEFAULT};
use crate::subdivision::SubdivisionState;
use crate::timing::{
    clamp_volume, compute_beat_interval_ms, compute_gain_permille, compute_played_sound,
    CELEBRATION_SOUND, POLL_MS,
};

verus! {

/// The tick scheduler: the one owner of the session and of the state of
/// every mode.
pub struct Scheduler {
    session: SessionState,
    random: RandomState,
    practice: PracticeState,
    polyrhythm: PolyrhythmState,
    ritardando: RitardandoState,
    subdivision: SubdivisionState,
    countdown: CountdownState,
    subdivision_tick_index: u32,
    last_tick_ms: u64,
    countdown_start_ms: u64,
}

/// A copy of all that the scheduler holds, for readers outside it.
#[derive(Debug)]
pub struct Snapshot {
    pub session: SessionState,
    pub random: RandomState,
    pub practice: PracticeState,
    pub polyrhythm: PolyrhythmState,
    pub ritardando: RitardandoState,
    pub subdivision: SubdivisionState,
    pub countdown: CountdownState,
}

impl Clone for Snapshot {
    fn clone(&self) -> (copy: Snapshot)
        ensures
            copy.session == self.session,
            copy.random == self.random,
            copy.practice@ == self.practice@,
            copy.polyrhythm == self.polyrhythm,
            copy.ritardando == self.ritardando,
            copy.subdivision@ == self.subdivision@,
            copy.countdown == self.countdown,
    {
        Snapshot {
            session: self.session,
            random: self.random,
            practice: self.practice.clone(),
            polyrhythm: self.polyrhythm,
            ritardando: self.ritardando,
            subdivision: self.subdivision.clone(),
            countdown: self.countdown,
        }
    }
}

/// What one step of the scheduler asks its caller to do.
#[derive(Debug)]
pub struct Step {
    /// The events to publish, in order.
    pub events: Vec<Event>,
    /// The sound to play, if any.
    pub sound: Option<SoundRequest>,
    /// How long to sleep before the next step, in milliseconds.
    pub pause_ms: u64,
}

impl View for Scheduler {
    type V = SchedulerView;

    closed spec fn view(&self) -> SchedulerView {
        SchedulerView {
            session: self.session,
            random: self.random,
            practice: self.practice@,
            polyrhythm: self.polyrhythm,
            ritardando: self.ritardando,
            subdivision: self.subdivision@,
            countdown: self.countdown,
            subdivision_tick_index: self.subdivision_tick_index,
            last_tick_ms: self.last_tick_ms,
            countdown_start_ms: self.countdown_start_ms,
        }
    }
}

/// The scheduler of a new session, as mathematical values: stopped, in the
/// standard mode, and every mode with its default settings.
pub open spec fn initial_view(now_ms: u64) -> SchedulerView {
    SchedulerView {
        session: SessionState::initial(now_ms),
        random: RandomState::with_interval(INTERVAL_BEATS_DEFAULT),
        practice: crate::practice::PracticeView {
            sections: default_sections(),
            current_section_index: 0,
            section_remaining_beats: 0,
        },
        polyrhythm: PolyrhythmState {
            primary_period: 4,
            secondary_period: 3,
            accent_primary: true,
            accent_secondary: true,
        },
        ritardando: RitardandoState {
            start_bpm: 120,
            target_bpm: 180,
            ramp_length_beats: 64,
            remaining_beats: 64,
        },
        subdivision: crate::subdivision::SubdivisionView {
            subdivision_factor: 1,
            accent_pattern: seq![true],
        },
        countdown: CountdownState {
            duration_seconds: DURATION_SECONDS_DEFAULT,
            remaining_ms: 60000,
            randomize_tempo: false,
            baseline_bpm: TEMPO_DEFAULT,
            next_randomization_in_ms: crate::countdown::FIRST_RANDOMIZATION_MS,
        },
        subdivision_tick_index: 0,
        last_tick_ms: now_ms,
        countdown_start_ms: now_ms,
    }
}

/// Whether `step`, with the state after it, is what the step at `now_ms`
/// from `before` gives with the random values `draws`.
pub open spec fn step_result(
    before: SchedulerView,
    after: SchedulerView,
    step: Step,
    now_ms: u64,
    draws: Draws,
) -> bool {
    &&& after == before.stepped(now_ms, draws)
    &&& step.events@ == before.step_events(now_ms, draws)
    &&& step.sound == before.step_sound(now_ms, draws)
    &&& step.pause_ms == before.step_pause_ms(now_ms)
}

/// Whether `step`, with the state after it, is what one round of the
/// scheduler at `now_ms` from `before` gives: the pending commands are
/// applied first, in order, and the step is taken from the state that they
/// leave. The events of the commands come before those of the step.
pub open spec fn round_result(
    before: SchedulerView,
    after: SchedulerView,
    step: Step,
    commands: Seq<Command>,
    now_ms: u64,
    draws: Draws,
) -> bool {
    let drained = before.drained(commands, now_ms);
    &&& after == drained.stepped(now_ms, draws)
    &&& step.events@ == command_events(commands) + drained.step_events(now_ms, draws)
    &&& step.sound == drained.step_sound(now_ms, draws)
    &&& step.pause_ms == drained.step_pause_ms(now_ms)
}

impl Scheduler {
    /// The scheduler of a new session, created at `now_ms`.
    pub fn new(now_ms: u64) -> (scheduler: Scheduler)
        ensures
            scheduler@ == initial_view(now_ms),
            scheduler@.wf(),
    {
        Scheduler {
            session: SessionState::new(now_ms),
            random: RandomState::new(INTERVAL_BEATS_DEFAULT),
            practice: PracticeState::with_default_sections(),
            polyrhythm: PolyrhythmState::new(4, 3, true, true),
            ritardando: RitardandoState::new(120, 180, 64),
            subdivision: SubdivisionState::quarter_notes(),
            countdown: CountdownState::new(DURATION_SECONDS_DEFAULT, false, TEMPO_DEFAULT),
            subdivision_tick_index: 0,
            last_tick_ms: now_ms,
            countdown_start_ms: now_ms,
        }
    }

    pub fn session(&self) -> (session: SessionState)
        ensures
            session == self@.session,
    {
        self.session
    }

    /// A copy of the session and of the state of every mode.
    pub fn snapshot(&self) -> (copy: Snapshot)
        ensures
            copy.session == self@.session,
            copy.random == self@.random,
            copy.practice@ == self@.practice,
            copy.polyrhythm == self@.polyrhythm,
            copy.ritardando == self@.ritardando,
            copy.subdivision@ == self@.subdivision,
            copy.countdown == self@.countdown,
    {
        Snapshot {
            session: self.session,
            random: self.random,
            practice: self.practice.clone(),
            polyrhythm: self.polyrhythm,
            ritardando: self.ritardando,
            subdivision: self.subdivision.clone(),
            countdown: self.countdown,
        }
    }

    fn start(&mut self, now_ms: u64)
        ensures
            final(self)@ == old(self)@.started(now_ms),
            old(self)@.wf() ==> final(self)@.wf(),
    {
        let tempo: u32 = self.session.tempo_bpm;
        self.session.running = true;
        self.session.beat_count = 0;
        self.last_tick_ms = now_ms;
        self.countdown_start_ms = now_ms;
        self.subdivision_tick_index = 0;
        match self.session.active_mode {
            ModeTag::Random => {
                self.random.restart();
            },
            ModeTag::Practice => {
                self.practice.restart();
            },
            ModeTag::Ritardando => {
                self.ritardando.restart();
                self.session.tempo_bpm = self.ritardando.start_bpm;
            },
            ModeTag::Countdown => {
                self.countdown.restart(tempo);
            },
            _ => {},
        }
    }

    /// Applies one command at `now_ms` and returns the event to publish, if
    /// the command has one.
    pub fn apply(&mut self, command: Command, now_ms: u64) -> (event: Option<Event>)
        ensures
            final(self)@ == old(self)@.applied(command, now_ms),
            event == command_event(command),
            old(self)@.wf() ==> final(self)@.wf(),
    {
        match command {
            Command::Start => {
                self.start(now_ms);
                None
            },
            Command::Stop => {
                self.session.running = false;
                None
            },
            Command::SetTempo(bpm) => {
                self.session.tempo_bpm = bpm;
                None
            },
            Command::SetVolume(volume) => {
                self.session.volume_percent = clamp_volume(volume);
                None
            },
            Command::SetSound(sound_id) => {
                self.session.sound_id = sound_id;
                None
            },
            Command::SetMode(mode) => {
                self.session.active_mode = mode;
                Some(Event::ModeChanged { mode })
            },
            Command::UpdateRandom { interval_beats } => {
                self.random.set_interval(interval_beats);
                None
            },
            Command::UpdatePractice { sections } => {
                self.practice.set_sections(sections);
                None
            },
            Command::UpdatePolyrhythm { primary, secondary, accent_primary, accent_secondary } => {
                self.polyrhythm = PolyrhythmState::new(
                    primary,
                    secondary,
                    accent_primary,
                    accent_secondary,
                );
                None
            },
            Command::UpdateRitardando { start, target, ramp_length } => {
                self.ritardando.set(start, target, ramp_length);
                None
            },
            Command::UpdateSubdivision { factor, pattern } => {
                self.subdivision.set(factor, pattern);
                None
            },
            Command::UpdateCountdown { duration_seconds, randomize_tempo } => {
                self.countdown.set(duration_seconds, randomize_tempo);
                None
            },
            Command::Reset => {
                self.session.beat_count = 0;
                self.subdivision_tick_index = 0;
                None
            },
        }
    }

    /// Applies the pending commands in order, all at `now_ms`, and returns
    /// the events to publish, in the order of their commands.
    pub fn drain(&mut self, commands: Vec<Command>, now_ms: u64) -> (events: Vec<Event>)
        ensures
            final(self)@ == old(self)@.drained(commands@, now_ms),
            events@ == command_events(commands@),
            old(self)@.wf() ==> final(self)@.wf(),
    {
        let mut events: Vec<Event> = Vec::new();
        let mut commands = commands;
        let ghost all = commands@;
        let ghost done: int = 0;
        assert(all.take(0) =~= Seq::<Command>::empty());
        while commands.len() > 0
            invariant
                0 <= done <= all.len(),
                commands@ == all.skip(done),
                self@ == old(self)@.drained(all.take(done), now_ms),
                events@ == command_events(all.take(done)),
                old(self)@.wf() ==> self@.wf(),
            decreases commands.len(),
        {
            let command = commands.remove(0);
            proof {
                assert(command == all[done]);
                assert(all.take(done + 1).drop_last() =~= all.take(done));
                assert(all.take(done + 1).last() == all[done]);
                assert(all.skip(done).remove(0) =~= all.skip(done + 1));
            }
            match self.apply(command, now_ms) {
                Some(event) => {
                    events.push(event);
                },
                None => {},
            }
            proof {
                done = done + 1;
            }
        }
        assert(all.take(all.len() as int) =~= all);
        events
    }

    /// The active mode counts one tick and says what it decides.
    fn mode_tick(&mut self, draws: Draws) -> (outcome: TickOutcome)
        ensures
            final(self)@ == old(self)@.after_mode_tick(),
            outcome == old(self)@.mode_outcome(draws),
            old(self)@.wf() ==> final(self)@.wf(),
    {
        match self.session.active_mode {
            ModeTag::Standard => TickOutcome::plain(),
            ModeTag::Random => self.random.tick_with(draws.random_tempo),
            ModeTag::Practice => self.practice.tick(),
            ModeTag::Polyrhythm => self.polyrhythm.tick(self.session.beat_count),
            ModeTag::Ritardando => self.ritardando.tick(),
            ModeTag::Subdivision => {
                let accent = self.subdivision.accent(self.subdivision_tick_index);
                self.subdivision_tick_index = self.subdivision_tick_index.wrapping_add(1);
                TickOutcome { accent, alternate_sound: false, tempo_override: None }
            },
            ModeTag::Countdown => TickOutcome {
                accent: self.countdown.is_accent_due(),
                alternate_sound: false,
                tempo_override: None,
            },
        }
    }

    /// Whether a beat interval has passed at `now_ms` since the last tick.
    fn is_tick_due(&self, now_ms: u64) -> (due: bool)
        ensures
            due == self@.tick_due(now_ms),
    {
        let interval: u64 = compute_beat_interval_ms(
            self.session.tempo_bpm,
            self.session.active_mode,
            self.subdivision.subdivision_factor,
        );
        now_ms.saturating_sub(self.last_tick_ms) >= interval
    }

    /// One step of the scheduler at `now_ms`, with `draws` as the random
    /// values to take where the step needs any.
    pub fn step_with(&mut self, now_ms: u64, draws: Draws) -> (step: Step)
        ensures
            step_result(old(self)@, final(self)@, step, now_ms, draws),
            old(self)@.wf() ==> final(self)@.wf(),
    {
        let mut events: Vec<Event> = Vec::new();
        if !self.session.running {
            self.last_tick_ms = now_ms;
            self.subdivision_tick_index = 0;
            return Step { events, sound: None, pause_ms: POLL_MS };
        }
        if self.session.active_mode == ModeTag::Countdown {
            let elapsed: u64 = now_ms.saturating_sub(self.countdown_start_ms);
            let status = self.countdown.observe(
                elapsed,
                draws.countdown_tempo,
                draws.countdown_delay_ms,
            );
            match status {
                CountdownStatus::Finished => {
                    self.session.running = false;
                    events.push(Event::CountdownFinished);
                    let celebration = SoundRequest {
                        sound_id: CELEBRATION_SOUND,
                        gain_permille: compute_gain_permille(self.session.volume_percent, true),
                    };
                    return Step { events, sound: Some(celebration), pause_ms: 0 };
                },
                CountdownStatus::Running { new_tempo: Some(bpm) } => {
                    self.session.tempo_bpm = bpm;
                    events.push(Event::TempoChanged { bpm });
                },
                CountdownStatus::Running { new_tempo: None } => {},
            }
        }
        if !self.is_tick_due(now_ms) {
            return Step { events, sound: None, pause_ms: POLL_MS };
        }
        let announces = self.session.active_mode == ModeTag::Random || self.session.active_mode
            == ModeTag::Practice;
        let sound_id: u32 = self.session.sound_id;
        let outcome = self.mode_tick(draws);
        match outcome.tempo_override {
            Some(bpm) => {
                self.session.tempo_bpm = bpm;
                if announces {
                    events.push(Event::TempoChanged { bpm });
                }
            },
            None => {},
        }
        self.session.beat_count = self.session.beat_count.wrapping_add(1);
        self.session.last_beat_ms = now_ms;
        self.last_tick_ms = now_ms;
        events.push(Event::Beat { beat_count: self.session.beat_count, is_accent: outcome.accent });
        let sound = SoundRequest {
            sound_id: compute_played_sound(sound_id, outcome.alternate_sound),
            gain_permille: compute_gain_permille(self.session.volume_percent, outcome.accent),
        };
        assert(events@ =~= old(self)@.step_events(now_ms, draws));
        Step { events, sound: Some(sound), pause_ms: POLL_MS }
    }

    /// The random values for the step at `now_ms`: each one that the step
    /// takes is drawn now, uniformly from its range.
    fn draw(&self, now_ms: u64) -> (draws: Draws)
        ensures
            draws.in_range(),
    {
        let mut draws = Draws::lowest();
        if self.session.running {
            if self.session.active_mode == ModeTag::Random {
                if self.random.is_draw_due() && self.is_tick_due(now_ms) {
                    draws.random_tempo = uniform_in(RANDOM_TEMPO_MIN, RANDOM_TEMPO_MAX);
                }
            } else if self.session.active_mode == ModeTag::Countdown {
                let elapsed: u64 = now_ms.saturating_sub(self.countdown_start_ms);
                if self.countdown.is_randomization_due(elapsed) {
                    draws.countdown_tempo = uniform_in(COUNTDOWN_TEMPO_MIN, COUNTDOWN_TEMPO_MAX);
                    draws.countdown_delay_ms = uniform_in(
                        COUNTDOWN_DELAY_MIN_MS,
                        COUNTDOWN_DELAY_MAX_MS,
                    );
                }
            }
        }
        draws
    }

    /// One step of the scheduler at `now_ms`: what `step_with` does with
    /// random values drawn from their ranges.
    pub fn step(&mut self, now_ms: u64) -> (step: Step)
        ensures
            exists|draws: Draws|
                draws.in_range() && #[trigger] step_result(
                    old(self)@,
                    final(self)@,
                    step,
                    now_ms,
                    draws,
                ),
            old(self)@.wf() ==> final(self)@.wf(),
    {
        let draws = self.draw(now_ms);
        self.step_with(now_ms, draws)
    }

    /// One round of the scheduler at `now_ms`, with `draws` as the random
    /// values to take where the step needs any: the pending commands are
    /// applied, then the step is taken.
    pub fn round_with(&mut self, commands: Vec<Command>, now_ms: u64, draws: Draws) -> (step: Step)
        ensures
            round_result(old(self)@, final(self)@, step, commands@, now_ms, draws),
            old(self)@.wf() ==> final(self)@.wf(),
    {
        let mut events = self.drain(commands, now_ms);
        let mut step = self.step_with(now_ms, draws);
        events.append(&mut step.events);
        Step { events, sound: step.sound, pause_ms: step.pause_ms }
    }

    /// One round of the scheduler at `now_ms`: what `round_with` does with
    /// random values drawn from their ranges.
    pub fn round(&mut self, commands: Vec<Command>, now_ms: u64) -> (step: Step)
        ensures
            exists|draws: Draws|
                draws.in_range() && #[trigger] round_result(
                    old(self)@,
                    final(self)@,
                    step,
                    commands@,
                    now_ms,
                    draws,
                ),
            old(self)@.wf() ==> final(self)@.wf(),
    {
        let mut events = self.drain(commands, now_ms);
        let draws = self.draw(now_ms);
        let mut step = self.step_with(now_ms, draws);
        events.append(&mut step.events);
        let step = Step { events, sound: step.sound, pause_ms: step.pause_ms };
        assert(round_result(old(self)@, self@, step, commands@, now_ms, draws));
        step
    }
}

} // verus!
