use metronome::classic::{
    adjust_bpm, adjust_random_count, count_tick, count_tick_with, tick_due, toggle_metronome,
    toggle_random_mode, MetronomeState,
};

#[test]
fn classic_defaults() {
    assert_eq!(
        MetronomeState::new(),
        MetronomeState {
            bpm: 120,
            is_running: false,
            random_mode: false,
            random_count: 100,
            remaining_ticks: 0,
        }
    );
}

#[test]
fn classic_toggle_metronome() {
    let mut state = MetronomeState::new();
    toggle_metronome(&mut state);
    assert!(state.is_running);
    assert_eq!(state.remaining_ticks, 0);
    toggle_metronome(&mut state);
    assert!(!state.is_running);
    state.random_mode = true;
    toggle_metronome(&mut state);
    assert_eq!(state.remaining_ticks, 100);
    state.remaining_ticks = 37;
    toggle_metronome(&mut state);
    assert!(!state.is_running);
    assert_eq!(state.remaining_ticks, 37);
    toggle_metronome(&mut state);
    assert!(state.is_running);
    assert_eq!(state.remaining_ticks, 100);
}

#[test]
fn classic_toggle_random_mode() {
    let mut state = MetronomeState::new();
    toggle_random_mode(&mut state);
    assert!(state.random_mode);
    assert_eq!(state.remaining_ticks, 0);
    toggle_random_mode(&mut state);
    state.is_running = true;
    toggle_random_mode(&mut state);
    assert_eq!(state.remaining_ticks, 100);
    toggle_random_mode(&mut state);
    assert!(!state.random_mode);
    assert_eq!(state.remaining_ticks, 0);
}

#[test]
fn classic_adjustments_are_clamped() {
    let mut state = MetronomeState::new();
    adjust_bpm(&mut state, -5);
    assert_eq!(state.bpm, 115);
    adjust_bpm(&mut state, 500);
    assert_eq!(state.bpm, 300);
    adjust_bpm(&mut state, -500);
    assert_eq!(state.bpm, 30);
    adjust_random_count(&mut state, -10);
    assert_eq!(state.random_count, 90);
    adjust_random_count(&mut state, -1000);
    assert_eq!(state.random_count, 10);
    adjust_random_count(&mut state, 2000);
    assert_eq!(state.random_count, 500);
    state.random_count = 495;
    adjust_random_count(&mut state, 10);
    assert_eq!(state.random_count, 500);
    state.random_mode = true;
    state.is_running = true;
    state.remaining_ticks = 3;
    adjust_random_count(&mut state, -10);
    assert_eq!(state.random_count, 490);
    assert_eq!(state.remaining_ticks, 490);
    state.random_count = 100;
    state.remaining_ticks = 95;
    adjust_random_count(&mut state, -10);
    assert_eq!(state.random_count, 90);
    assert_eq!(state.remaining_ticks, 90);
    state.is_running = false;
    state.remaining_ticks = 85;
    adjust_random_count(&mut state, -10);
    assert_eq!(state.random_count, 80);
    assert_eq!(state.remaining_ticks, 80);
    state.remaining_ticks = 5;
    adjust_random_count(&mut state, 10);
    assert_eq!(state.random_count, 90);
    assert_eq!(state.remaining_ticks, 5);
}

#[test]
fn classic_tick_due() {
    let mut state = MetronomeState::new();
    assert!(!tick_due(&state, 500));
    state.is_running = true;
    assert!(tick_due(&state, 500));
    assert!(!tick_due(&state, 499));
    state.bpm = 300;
    assert!(tick_due(&state, 200));
    assert!(!tick_due(&state, 199));
}

#[test]
fn classic_count_tick_with_given_draw() {
    let mut state = MetronomeState::new();
    state.is_running = true;
    let before = state;
    count_tick_with(&mut state, 77);
    assert_eq!(state, before);
    state.random_mode = true;
    state.random_count = 12;
    for n in 1u32..=11 {
        count_tick_with(&mut state, 77);
        assert_eq!(state.remaining_ticks, 12 - n);
        assert_eq!(state.bpm, 120);
    }
    count_tick_with(&mut state, 77);
    assert_eq!(state.bpm, 77);
    assert_eq!(state.remaining_ticks, 12);
}

#[test]
fn classic_count_tick_draws_between_60_and_200() {
    let mut state = MetronomeState::new();
    state.is_running = true;
    state.random_mode = true;
    state.random_count = 10;
    let mut seen: Vec<u32> = Vec::new();
    for n in 1u32..=3000 {
        count_tick(&mut state);
        if n % 10 == 0 {
            assert!((60..=200).contains(&state.bpm), "drawn tempo {}", state.bpm);
            if !seen.contains(&state.bpm) {
                seen.push(state.bpm);
            }
        }
    }
    assert!(seen.len() > 1);
}
