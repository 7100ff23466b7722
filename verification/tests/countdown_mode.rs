use metronome::countdown::{CountdownState, CountdownStatus, Urgency};
use metronome::draw::Draws;
use metronome::mode::ModeTag;
use metronome::protocol::{Command, Event, SoundRequest};
use metronome::scheduler::Scheduler;

fn countdown_scheduler(duration_seconds: u32, randomize_tempo: bool, start_ms: u64) -> Scheduler {
    let mut scheduler = Scheduler::new(0);
    scheduler.apply(Command::SetMode(ModeTag::Countdown), start_ms);
    scheduler.apply(Command::UpdateCountdown { duration_seconds, randomize_tempo }, start_ms);
    scheduler.apply(Command::Start, start_ms);
    scheduler
}

#[test]
fn countdown_completion() {
    let mut scheduler = countdown_scheduler(1, false, 0);
    let mut finished_at: Vec<u64> = Vec::new();
    let mut beats_at: Vec<u64> = Vec::new();
    for now in 1u64..=3000 {
        let step = scheduler.step(now);
        for event in &step.events {
            match event {
                Event::CountdownFinished => finished_at.push(now),
                Event::Beat { .. } => beats_at.push(now),
                other => panic!("unexpected event {:?}", other),
            }
        }
        if now >= 1000 {
            assert!(!scheduler.session().running);
        } else {
            assert!(scheduler.session().running);
        }
    }
    assert_eq!(finished_at, vec![1000]);
    assert_eq!(beats_at, vec![500]);
    assert_eq!(scheduler.snapshot().countdown.remaining_ms, 0);

    scheduler.apply(Command::Start, 5000);
    assert!(scheduler.session().running);
    assert_eq!(scheduler.snapshot().countdown.remaining_ms, 1000);
    let step = scheduler.step(5500);
    assert_eq!(step.events, vec![Event::Beat { beat_count: 1, is_accent: false }]);
}

#[test]
fn countdown_finish_asks_for_celebration() {
    let mut scheduler = countdown_scheduler(1, false, 100);
    scheduler.apply(Command::SetVolume(50), 100);
    let step = scheduler.step(1100);
    assert_eq!(step.events, vec![Event::CountdownFinished]);
    assert_eq!(step.sound, Some(SoundRequest { sound_id: 8, gain_permille: 750 }));
    assert_eq!(step.pause_ms, 0);
    let after = scheduler.step(1101);
    assert!(after.events.is_empty());
    assert_eq!(after.sound, None);
    assert_eq!(after.pause_ms, 1);
}

#[test]
fn countdown_celebration_gain_is_not_above_full() {
    let mut scheduler = countdown_scheduler(1, false, 0);
    let step = scheduler.step(2000);
    assert_eq!(step.sound, Some(SoundRequest { sound_id: 8, gain_permille: 1000 }));
}

#[test]
fn countdown_of_no_duration_ends_at_once() {
    let mut scheduler = countdown_scheduler(0, true, 40);
    let step = scheduler.step(40);
    assert_eq!(step.events, vec![Event::CountdownFinished]);
    assert!(!scheduler.session().running);
}

#[test]
fn countdown_remaining_follows_the_clock() {
    let mut scheduler = countdown_scheduler(60, false, 1000);
    assert_eq!(scheduler.snapshot().countdown.remaining_ms, 60_000);
    scheduler.step(1001);
    assert_eq!(scheduler.snapshot().countdown.remaining_ms, 59_999);
    scheduler.step(31_000);
    assert_eq!(scheduler.snapshot().countdown.remaining_ms, 30_000);
    scheduler.step(60_999);
    assert_eq!(scheduler.snapshot().countdown.remaining_ms, 1);
    assert!(scheduler.session().running);
    scheduler.step(61_000);
    assert_eq!(scheduler.snapshot().countdown.remaining_ms, 0);
    assert!(!scheduler.session().running);
}

#[test]
fn countdown_start_captures_baseline() {
    let mut scheduler = Scheduler::new(0);
    scheduler.apply(Command::SetMode(ModeTag::Countdown), 0);
    scheduler.apply(Command::SetTempo(96), 0);
    scheduler.apply(Command::UpdateCountdown { duration_seconds: 30, randomize_tempo: true }, 0);
    scheduler.apply(Command::Start, 0);
    assert_eq!(
        scheduler.snapshot().countdown,
        CountdownState {
            duration_seconds: 30,
            remaining_ms: 30_000,
            randomize_tempo: true,
            baseline_bpm: 96,
            next_randomization_in_ms: 5000,
        }
    );
}

#[test]
fn countdown_accent_window() {
    let at = |elapsed_ms: u64| {
        let mut state = CountdownState::new(60, false, 120);
        state.observe(elapsed_ms, 100, 4000);
        state.is_accent_due()
    };
    assert!(at(0));
    assert!(at(499));
    assert!(!at(500));
    assert!(!at(9_999));
    assert!(at(10_000));
    assert!(at(10_499));
    assert!(!at(10_500));
    assert!(at(50_250));
}

#[test]
fn countdown_accents_ticks_after_full_ten_seconds() {
    let mut scheduler = countdown_scheduler(25, false, 0);
    scheduler.apply(Command::SetTempo(60), 0);
    let mut accents: Vec<u64> = Vec::new();
    let mut beats = 0;
    for now in 1u64..=24_999 {
        let step = scheduler.step(now);
        for event in &step.events {
            if let Event::Beat { is_accent, .. } = event {
                beats += 1;
                if *is_accent {
                    accents.push(now);
                }
            }
        }
    }
    assert_eq!(beats, 24);
    assert_eq!(accents, vec![10_000, 20_000]);
}

#[test]
fn countdown_observe_values() {
    let mut state = CountdownState::new(10, true, 120);
    assert_eq!(state.observe(1000, 99, 4000), CountdownStatus::Running { new_tempo: None });
    assert_eq!(state.remaining_ms, 9000);
    assert_eq!(state.next_randomization_in_ms, 4000);
    assert_eq!(state.observe(4999, 99, 4000), CountdownStatus::Running { new_tempo: None });
    assert_eq!(state.next_randomization_in_ms, 1);
    assert!(state.is_randomization_due(5000));
    assert!(!state.is_randomization_due(4999));
    assert_eq!(state.observe(5000, 99, 4000), CountdownStatus::Running { new_tempo: Some(99) });
    assert_eq!(state.next_randomization_in_ms, 4000);
    assert_eq!(state.remaining_ms, 5000);
    assert_eq!(state.observe(8999, 150, 3000), CountdownStatus::Running { new_tempo: None });
    assert_eq!(state.observe(9000, 150, 3000), CountdownStatus::Running { new_tempo: Some(150) });
    assert_eq!(state.next_randomization_in_ms, 3000);
    assert_eq!(state.observe(10_000, 150, 3000), CountdownStatus::Finished);
    assert_eq!(state.remaining_ms, 0);
    assert_eq!(state.next_randomization_in_ms, 3000);
    assert_eq!(state.observe(20_000, 150, 3000), CountdownStatus::Finished);
}

#[test]
fn countdown_without_randomization_keeps_tempo() {
    let mut state = CountdownState::new(100, false, 120);
    for elapsed in [1000u64, 5000, 6000, 50_000, 99_999] {
        assert_eq!(state.observe(elapsed, 99, 4000), CountdownStatus::Running { new_tempo: None });
        assert_eq!(state.next_randomization_in_ms, 5000);
    }
}

#[test]
fn countdown_set_and_restart() {
    let mut state = CountdownState::new(60, false, 120);
    state.observe(20_000, 100, 4000);
    assert_eq!(state.remaining_ms, 40_000);
    state.set(90, true);
    assert_eq!(state.duration_seconds, 90);
    assert!(state.randomize_tempo);
    assert_eq!(state.remaining_ms, 40_000);
    state.set(30, true);
    assert_eq!(state.remaining_ms, 30_000);
    state.restart(144);
    assert_eq!(
        state,
        CountdownState {
            duration_seconds: 30,
            remaining_ms: 30_000,
            randomize_tempo: true,
            baseline_bpm: 144,
            next_randomization_in_ms: 5000,
        }
    );
}

#[test]
fn countdown_varies_tempo_with_given_draws() {
    let mut scheduler = countdown_scheduler(60, true, 0);
    let draws = Draws { random_tempo: 61, countdown_tempo: 100, countdown_delay_ms: 3000 };
    let mut changes: Vec<(u64, u32)> = Vec::new();
    for now in 1u64..=12_000 {
        let step = scheduler.step_with(now, draws);
        for event in &step.events {
            if let Event::TempoChanged { bpm } = event {
                changes.push((now, *bpm));
                assert_eq!(step.events[0], Event::TempoChanged { bpm: 100 });
            }
        }
    }
    assert_eq!(changes, vec![(5000, 100), (8000, 100), (11_000, 100)]);
    assert_eq!(scheduler.session().tempo_bpm, 100);
    assert_eq!(scheduler.snapshot().countdown.baseline_bpm, 120);
}

#[test]
fn countdown_new_tempo_sets_the_interval_at_once() {
    let mut scheduler = countdown_scheduler(60, true, 0);
    let slow = Draws { random_tempo: 61, countdown_tempo: 80, countdown_delay_ms: 8000 };
    let mut beats: Vec<u64> = Vec::new();
    for now in 4600u64..=6000 {
        if now == 4600 {
            for earlier in 1u64..4600 {
                scheduler.step_with(earlier, slow);
            }
        }
        let step = scheduler.step_with(now, slow);
        if step.events.iter().any(|e| matches!(e, Event::Beat { .. })) {
            beats.push(now);
        }
    }
    // the last beat at the old tempo falls on 4500; at 80 a beat lasts 750 ms
    assert_eq!(beats, vec![5250, 6000]);
}

#[test]
fn countdown_drawn_tempos_lie_between_80_and_180() {
    let mut scheduler = countdown_scheduler(3600, true, 0);
    let mut changes = 0;
    let mut last_change = 0u64;
    let mut seen: Vec<u32> = Vec::new();
    let mut now = 0u64;
    while now < 3_000_000 {
        now += 50;
        let step = scheduler.step(now);
        for event in &step.events {
            if let Event::TempoChanged { bpm } = event {
                assert!((80..=180).contains(bpm), "drawn tempo {}", bpm);
                assert_eq!(scheduler.session().tempo_bpm, *bpm);
                if changes > 0 {
                    let gap = now - last_change;
                    assert!((3000..=8049).contains(&gap), "gap of {} ms", gap);
                }
                let next = scheduler.snapshot().countdown.next_randomization_in_ms;
                assert!((3000..=8000).contains(&next));
                last_change = now;
                changes += 1;
                if !seen.contains(bpm) {
                    seen.push(*bpm);
                }
            }
        }
    }
    assert!(changes >= 3_000_000 / 8050);
    assert!(seen.len() > 1);
}

#[test]
fn countdown_read_outs() {
    let mut state = CountdownState::new(125, false, 120);
    assert_eq!(state.minutes_and_seconds(), (2, 5));
    assert_eq!(state.compute_progress_permille(), 0);
    assert_eq!(state.compute_urgency(), Urgency::Relaxed);
    state.observe(25_000, 100, 4000);
    assert_eq!(state.minutes_and_seconds(), (1, 40));
    assert_eq!(state.compute_progress_permille(), 200);
    state.observe(94_999, 100, 4000);
    assert_eq!(state.minutes_and_seconds(), (0, 30));
    assert_eq!(state.compute_urgency(), Urgency::Relaxed);
    state.observe(95_000, 100, 4000);
    assert_eq!(state.minutes_and_seconds(), (0, 30));
    assert_eq!(state.compute_urgency(), Urgency::Near);
    state.observe(115_000, 100, 4000);
    assert_eq!(state.compute_urgency(), Urgency::Imminent);
    assert_eq!(state.compute_progress_permille(), 920);
    state.observe(124_001, 100, 4000);
    assert_eq!(state.minutes_and_seconds(), (0, 0));
    state.observe(125_000, 100, 4000);
    assert_eq!(state.compute_progress_permille(), 1000);
    let none = CountdownState::new(0, false, 120);
    assert_eq!(none.compute_progress_permille(), 0);
    assert_eq!(none.minutes_and_seconds(), (0, 0));
}
