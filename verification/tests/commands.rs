use metronome::draw::Draws;
use metronome::mode::ModeTag;
use metronome::protocol::{Command, Event, SoundRequest};
use metronome::random::RandomState;
use metronome::scheduler::Scheduler;
use metronome::session::SessionState;

#[test]
fn scheduler_defaults() {
    let scheduler = Scheduler::new(42);
    assert_eq!(
        scheduler.session(),
        SessionState {
            tempo_bpm: 120,
            running: false,
            volume_percent: 80,
            sound_id: 0,
            beat_count: 0,
            active_mode: ModeTag::Standard,
            last_beat_ms: 42,
        }
    );
    assert_eq!(SessionState::new(42), scheduler.session());
    let snapshot = scheduler.snapshot();
    assert_eq!(snapshot.session, scheduler.session());
    assert_eq!(snapshot.random, RandomState { interval_beats: 100, remaining_beats: 100 });
    assert_eq!(snapshot.practice.sections, vec![(60, 32), (120, 32), (180, 32)]);
    assert_eq!(snapshot.polyrhythm.primary_period, 4);
    assert_eq!(snapshot.polyrhythm.secondary_period, 3);
    assert!(snapshot.polyrhythm.accent_primary);
    assert!(snapshot.polyrhythm.accent_secondary);
    assert_eq!(snapshot.ritardando.start_bpm, 120);
    assert_eq!(snapshot.ritardando.target_bpm, 180);
    assert_eq!(snapshot.ritardando.ramp_length_beats, 64);
    assert_eq!(snapshot.subdivision.subdivision_factor, 1);
    assert_eq!(snapshot.subdivision.accent_pattern, vec![true]);
    assert_eq!(snapshot.countdown.duration_seconds, 60);
    assert_eq!(snapshot.countdown.remaining_ms, 60_000);
    assert!(!snapshot.countdown.randomize_tempo);
}

#[test]
fn stop_twice_is_idempotent() {
    let mut scheduler = Scheduler::new(0);
    scheduler.apply(Command::SetMode(ModeTag::Random), 0);
    scheduler.apply(Command::Start, 0);
    for now in [500u64, 1000, 1500] {
        scheduler.step(now);
    }
    assert_eq!(scheduler.apply(Command::Stop, 1600), None);
    let session = scheduler.session();
    let random = scheduler.snapshot().random;
    assert!(!session.running);
    assert_eq!(session.beat_count, 3);
    assert_eq!(scheduler.apply(Command::Stop, 1700), None);
    assert_eq!(scheduler.session(), session);
    assert_eq!(scheduler.snapshot().random, random);
}

#[test]
fn stop_keeps_counters() {
    let mut scheduler = Scheduler::new(0);
    scheduler.apply(Command::SetMode(ModeTag::Practice), 0);
    scheduler.apply(Command::Start, 0);
    scheduler.step(500);
    scheduler.step(60_500);
    let before = scheduler.snapshot();
    scheduler.apply(Command::Stop, 60_600);
    let after = scheduler.snapshot();
    assert_eq!(after.session.beat_count, before.session.beat_count);
    assert_eq!(after.session.tempo_bpm, before.session.tempo_bpm);
    assert_eq!(after.practice.current_section_index, before.practice.current_section_index);
    assert_eq!(after.practice.section_remaining_beats, before.practice.section_remaining_beats);
    assert_eq!(after.practice.section_remaining_beats, 30);
}

#[test]
fn start_resets_beat_count_and_the_active_mode_only() {
    let mut scheduler = Scheduler::new(0);
    scheduler.apply(Command::SetMode(ModeTag::Random), 0);
    scheduler.apply(Command::UpdateRandom { interval_beats: 20 }, 0);
    scheduler.apply(Command::Start, 0);
    for beat in 1u64..=5 {
        scheduler.step(beat * 500);
    }
    assert_eq!(scheduler.snapshot().random.remaining_beats, 15);
    scheduler.apply(Command::SetMode(ModeTag::Ritardando), 2600);
    scheduler.apply(Command::Start, 2600);
    let snapshot = scheduler.snapshot();
    assert_eq!(snapshot.session.beat_count, 0);
    assert!(snapshot.session.running);
    assert_eq!(snapshot.session.tempo_bpm, 120);
    assert_eq!(snapshot.ritardando.remaining_beats, 64);
    assert_eq!(snapshot.random.remaining_beats, 15);
    scheduler.apply(Command::SetMode(ModeTag::Random), 2700);
    scheduler.apply(Command::Start, 2700);
    assert_eq!(scheduler.snapshot().random.remaining_beats, 20);
}

#[test]
fn start_restarts_the_beat_timer() {
    let mut scheduler = Scheduler::new(0);
    scheduler.apply(Command::Start, 10_000);
    assert!(scheduler.step(10_499).events.is_empty());
    assert_eq!(scheduler.step(10_500).events, vec![Event::Beat { beat_count: 1, is_accent: false }]);
    assert_eq!(scheduler.session().last_beat_ms, 10_500);
}

#[test]
fn set_mode_emits_event_and_keeps_progress() {
    let mut scheduler = Scheduler::new(0);
    scheduler.apply(Command::SetMode(ModeTag::Practice), 0);
    scheduler.apply(Command::UpdatePractice { sections: vec![(60, 4), (120, 4)] }, 0);
    scheduler.apply(Command::Start, 0);
    scheduler.step(60_000);
    scheduler.step(120_000);
    let before = scheduler.snapshot();
    assert_eq!(before.practice.current_section_index, 1);
    assert_eq!(before.practice.section_remaining_beats, 2);
    let event = scheduler.apply(Command::SetMode(ModeTag::Standard), 120_001);
    assert_eq!(event, Some(Event::ModeChanged { mode: ModeTag::Standard }));
    assert_eq!(scheduler.session().active_mode, ModeTag::Standard);
    assert!(scheduler.session().running);
    scheduler.step(180_000);
    let event = scheduler.apply(Command::SetMode(ModeTag::Practice), 180_001);
    assert_eq!(event, Some(Event::ModeChanged { mode: ModeTag::Practice }));
    let after = scheduler.snapshot();
    assert_eq!(after.practice.current_section_index, 1);
    assert_eq!(after.practice.section_remaining_beats, 2);
    assert_eq!(after.session.beat_count, 3);
}

#[test]
fn new_mode_takes_effect_at_next_tick() {
    let mut scheduler = Scheduler::new(0);
    scheduler.apply(Command::Start, 0);
    assert_eq!(scheduler.step(500).events, vec![Event::Beat { beat_count: 1, is_accent: false }]);
    let step = scheduler.round(vec![Command::SetMode(ModeTag::Polyrhythm)], 1000);
    assert_eq!(
        step.events,
        vec![
            Event::ModeChanged { mode: ModeTag::Polyrhythm },
            Event::Beat { beat_count: 2, is_accent: false }
        ]
    );
    assert_eq!(scheduler.step(2500).events, vec![Event::Beat { beat_count: 3, is_accent: false }]);
    assert_eq!(scheduler.step(3000).events, vec![Event::Beat { beat_count: 4, is_accent: false }]);
    assert_eq!(scheduler.step(3500).events, vec![Event::Beat { beat_count: 5, is_accent: true }]);
}

#[test]
fn set_volume_is_clamped() {
    let mut scheduler = Scheduler::new(0);
    scheduler.apply(Command::SetVolume(250), 0);
    assert_eq!(scheduler.session().volume_percent, 100);
    scheduler.apply(Command::SetVolume(0), 0);
    assert_eq!(scheduler.session().volume_percent, 0);
    scheduler.apply(Command::SetVolume(100), 0);
    assert_eq!(scheduler.session().volume_percent, 100);
    scheduler.apply(Command::SetVolume(37), 0);
    assert_eq!(scheduler.session().volume_percent, 37);
}

#[test]
fn set_tempo_and_sound() {
    let mut scheduler = Scheduler::new(0);
    assert_eq!(scheduler.apply(Command::SetTempo(240), 0), None);
    assert_eq!(scheduler.apply(Command::SetSound(5), 0), None);
    scheduler.apply(Command::Start, 0);
    assert!(scheduler.step(249).events.is_empty());
    let step = scheduler.step(250);
    assert_eq!(step.events, vec![Event::Beat { beat_count: 1, is_accent: false }]);
    assert_eq!(step.sound, Some(SoundRequest { sound_id: 5, gain_permille: 800 }));
    assert_eq!(step.pause_ms, 1);
}

#[test]
fn tempo_of_zero_counts_as_one() {
    let mut scheduler = Scheduler::new(0);
    scheduler.apply(Command::SetTempo(0), 0);
    scheduler.apply(Command::Start, 0);
    assert!(scheduler.step(59_999).events.is_empty());
    assert_eq!(scheduler.step(60_000).events.len(), 1);
    assert_eq!(scheduler.session().tempo_bpm, 0);
}

#[test]
fn update_random_is_clamped_and_restarts_the_count() {
    let mut scheduler = Scheduler::new(0);
    scheduler.apply(Command::UpdateRandom { interval_beats: 3 }, 0);
    assert_eq!(scheduler.snapshot().random, RandomState { interval_beats: 10, remaining_beats: 10 });
    scheduler.apply(Command::UpdateRandom { interval_beats: 9999 }, 0);
    assert_eq!(scheduler.snapshot().random, RandomState { interval_beats: 500, remaining_beats: 500 });
    scheduler.apply(Command::UpdateRandom { interval_beats: 64 }, 0);
    assert_eq!(scheduler.snapshot().random, RandomState { interval_beats: 64, remaining_beats: 64 });
}

#[test]
fn update_ritardando_is_clamped() {
    let mut scheduler = Scheduler::new(0);
    scheduler.apply(Command::UpdateRitardando { start: 200, target: 50, ramp_length: 0 }, 0);
    let ritardando = scheduler.snapshot().ritardando;
    assert_eq!(ritardando.start_bpm, 200);
    assert_eq!(ritardando.target_bpm, 50);
    assert_eq!(ritardando.ramp_length_beats, 1);
    assert_eq!(ritardando.remaining_beats, 1);
}

#[test]
fn update_commands_leave_the_session_alone() {
    let mut scheduler = Scheduler::new(7);
    let session = scheduler.session();
    scheduler.apply(Command::UpdateRandom { interval_beats: 50 }, 8);
    scheduler.apply(Command::UpdatePractice { sections: vec![(99, 9)] }, 8);
    scheduler.apply(
        Command::UpdatePolyrhythm {
            primary: 5,
            secondary: 7,
            accent_primary: true,
            accent_secondary: false,
        },
        8,
    );
    scheduler.apply(Command::UpdateRitardando { start: 1, target: 2, ramp_length: 3 }, 8);
    scheduler.apply(Command::UpdateSubdivision { factor: 2, pattern: vec![true, true] }, 8);
    scheduler.apply(Command::UpdateCountdown { duration_seconds: 5, randomize_tempo: true }, 8);
    assert_eq!(scheduler.session(), session);
    let snapshot = scheduler.snapshot();
    assert_eq!(snapshot.practice.sections, vec![(99, 9)]);
    assert_eq!(snapshot.countdown.duration_seconds, 5);
    assert!(snapshot.countdown.randomize_tempo);
}

#[test]
fn reset_zeroes_the_beat_count() {
    let mut scheduler = Scheduler::new(0);
    scheduler.apply(Command::Start, 0);
    scheduler.step(500);
    scheduler.step(1000);
    assert_eq!(scheduler.session().beat_count, 2);
    assert_eq!(scheduler.apply(Command::Reset, 1001), None);
    assert_eq!(scheduler.session().beat_count, 0);
    assert!(scheduler.session().running);
    assert_eq!(scheduler.step(1500).events, vec![Event::Beat { beat_count: 1, is_accent: false }]);
}

#[test]
fn drain_applies_in_order_and_collects_events() {
    let mut scheduler = Scheduler::new(0);
    let events = scheduler.drain(
        vec![
            Command::SetTempo(90),
            Command::SetMode(ModeTag::Random),
            Command::SetTempo(100),
            Command::Start,
            Command::SetMode(ModeTag::Countdown),
            Command::Stop,
            Command::SetVolume(10),
        ],
        77,
    );
    assert_eq!(
        events,
        vec![
            Event::ModeChanged { mode: ModeTag::Random },
            Event::ModeChanged { mode: ModeTag::Countdown }
        ]
    );
    let session = scheduler.session();
    assert_eq!(session.tempo_bpm, 100);
    assert_eq!(session.active_mode, ModeTag::Countdown);
    assert!(!session.running);
    assert_eq!(session.volume_percent, 10);
    assert!(scheduler.drain(Vec::new(), 78).is_empty());
    assert_eq!(scheduler.session(), session);
}

#[test]
fn round_applies_commands_before_the_tick() {
    let mut scheduler = Scheduler::new(0);
    scheduler.apply(Command::Start, 0);
    let step = scheduler.round(vec![Command::SetVolume(30), Command::SetSound(3)], 500);
    assert_eq!(step.events, vec![Event::Beat { beat_count: 1, is_accent: false }]);
    assert_eq!(step.sound, Some(SoundRequest { sound_id: 3, gain_permille: 300 }));
    let step = scheduler.round(vec![Command::SetTempo(60)], 1000);
    assert!(step.events.is_empty());
    let step = scheduler.round(vec![Command::Stop], 1500);
    assert!(step.events.is_empty());
    assert_eq!(step.sound, None);
    let draws = Draws { random_tempo: 60, countdown_tempo: 80, countdown_delay_ms: 3000 };
    let step = scheduler.round_with(vec![Command::Start, Command::SetTempo(600)], 2000, draws);
    assert!(step.events.is_empty());
    let step = scheduler.round_with(Vec::new(), 2100, draws);
    assert_eq!(step.events, vec![Event::Beat { beat_count: 1, is_accent: false }]);
}

#[test]
fn stopped_scheduler_is_silent() {
    let mut scheduler = Scheduler::new(0);
    let session = scheduler.session();
    for now in [0u64, 1, 500, 60_000, 10_000_000] {
        let step = scheduler.step(now);
        assert!(step.events.is_empty());
        assert_eq!(step.sound, None);
        assert_eq!(step.pause_ms, 1);
        assert_eq!(scheduler.session(), session);
    }
    scheduler.apply(Command::Start, 10_000_000);
    assert!(scheduler.step(10_000_499).events.is_empty());
    assert_eq!(scheduler.step(10_000_500).events.len(), 1);
}

#[test]
fn clock_that_goes_back_fires_nothing() {
    let mut scheduler = Scheduler::new(0);
    scheduler.apply(Command::Start, 5000);
    assert!(scheduler.step(100).events.is_empty());
    assert!(scheduler.step(0).events.is_empty());
    assert_eq!(scheduler.step(5500).events.len(), 1);
}
