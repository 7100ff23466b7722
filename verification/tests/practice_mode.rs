use metronome::mode::ModeTag;
use metronome::practice::{copy_sections, PracticeState};
use metronome::protocol::{Command, Event};
use metronome::scheduler::Scheduler;

#[test]
fn practice_wraparound() {
    let mut state = PracticeState::new(vec![(60, 4), (120, 4)]);
    let mut tempos: Vec<(u32, u32)> = Vec::new();
    for tick in 1u32..=8 {
        if let Some(bpm) = state.tick().tempo_override {
            tempos.push((tick, bpm));
        }
    }
    assert_eq!(tempos, vec![(1, 60), (5, 120)]);
    assert_eq!(state.current_section_index, 0);
    assert_eq!(state.section_remaining_beats, 0);
    let next = state.tick();
    assert_eq!(next.tempo_override, Some(60));
    assert_eq!(state.current_section_index, 1);
    assert_eq!(state.section_remaining_beats, 3);
}

#[test]
fn practice_wraparound_through_scheduler() {
    let mut scheduler = Scheduler::new(0);
    scheduler.apply(Command::SetMode(ModeTag::Practice), 0);
    scheduler.apply(Command::UpdatePractice { sections: vec![(60, 4), (120, 4)] }, 0);
    scheduler.apply(Command::Start, 0);
    let mut now = 0u64;
    let mut tempos: Vec<u32> = Vec::new();
    for beat in 1u32..=8 {
        now += 60_000;
        let step = scheduler.step(now);
        let tempo = scheduler.session().tempo_bpm;
        tempos.push(tempo);
        if beat == 1 || beat == 5 {
            assert_eq!(
                step.events,
                vec![
                    Event::TempoChanged { bpm: tempo },
                    Event::Beat { beat_count: beat, is_accent: false }
                ]
            );
        } else {
            assert_eq!(step.events, vec![Event::Beat { beat_count: beat, is_accent: false }]);
        }
    }
    assert_eq!(tempos, vec![60, 60, 60, 60, 120, 120, 120, 120]);
    assert_eq!(scheduler.snapshot().practice.current_section_index, 0);
    assert_eq!(scheduler.snapshot().practice.section_remaining_beats, 0);
    now += 60_000;
    let step = scheduler.step(now);
    assert_eq!(
        step.events,
        vec![Event::TempoChanged { bpm: 60 }, Event::Beat { beat_count: 9, is_accent: false }]
    );
    assert_eq!(scheduler.session().tempo_bpm, 60);
    assert_eq!(scheduler.snapshot().practice.current_section_index, 1);
}

#[test]
fn practice_section_lasts_its_beats() {
    let mut state = PracticeState::new(vec![(90, 3), (100, 1), (110, 2)]);
    let mut tempos: Vec<Option<u32>> = Vec::new();
    let mut remaining: Vec<u32> = Vec::new();
    let mut index: Vec<u32> = Vec::new();
    for _ in 0..7 {
        tempos.push(state.tick().tempo_override);
        remaining.push(state.section_remaining_beats);
        index.push(state.current_section_index);
    }
    assert_eq!(tempos, vec![Some(90), None, None, Some(100), Some(110), None, Some(90)]);
    assert_eq!(remaining, vec![2, 1, 0, 0, 1, 0, 2]);
    assert_eq!(index, vec![1, 1, 1, 2, 0, 0, 1]);
}

#[test]
fn practice_empty_sections_count_down_what_is_left() {
    let mut state =
        PracticeState { sections: Vec::new(), current_section_index: 0, section_remaining_beats: 2 };
    assert_eq!(state.tick().tempo_override, None);
    assert_eq!(state.section_remaining_beats, 1);
    assert_eq!(state.tick().tempo_override, None);
    assert_eq!(state.section_remaining_beats, 0);
    assert_eq!(state.tick().tempo_override, None);
    assert_eq!(state.section_remaining_beats, 0);
    assert_eq!(state.current_section_index, 0);
}

#[test]
fn practice_empty_sections_is_noop() {
    let mut state = PracticeState::new(Vec::new());
    for _ in 0..5 {
        let out = state.tick();
        assert_eq!(out.tempo_override, None);
        assert!(!out.accent);
        assert!(!out.alternate_sound);
        assert_eq!(state.current_section_index, 0);
        assert_eq!(state.section_remaining_beats, 0);
    }
}

#[test]
fn practice_section_without_beats_gives_way_at_next_tick() {
    let mut state = PracticeState::new(vec![(90, 0), (100, 2)]);
    assert_eq!(state.tick().tempo_override, Some(90));
    assert_eq!(state.section_remaining_beats, 0);
    assert_eq!(state.tick().tempo_override, Some(100));
    assert_eq!(state.section_remaining_beats, 1);
}

#[test]
fn practice_default_sections() {
    let state = PracticeState::with_default_sections();
    assert_eq!(state.sections, vec![(60, 32), (120, 32), (180, 32)]);
    assert_eq!(state.current_section_index, 0);
    assert_eq!(state.section_remaining_beats, 0);
    let scheduler = Scheduler::new(0);
    assert_eq!(scheduler.snapshot().practice.sections, vec![(60, 32), (120, 32), (180, 32)]);
}

#[test]
fn practice_set_sections_keeps_position_where_it_can() {
    let mut state = PracticeState::new(vec![(60, 4), (120, 4), (180, 4)]);
    state.tick();
    state.tick();
    assert_eq!(state.current_section_index, 1);
    assert_eq!(state.section_remaining_beats, 2);
    state.set_sections(vec![(70, 8), (80, 8)]);
    assert_eq!(state.sections, vec![(70, 8), (80, 8)]);
    assert_eq!(state.current_section_index, 1);
    assert_eq!(state.section_remaining_beats, 2);
    state.set_sections(vec![(75, 8)]);
    assert_eq!(state.current_section_index, 0);
    assert_eq!(state.section_remaining_beats, 2);
}

#[test]
fn practice_restart_goes_back_to_first_section() {
    let mut state = PracticeState::new(vec![(60, 4), (120, 4)]);
    for _ in 0..6 {
        state.tick();
    }
    state.restart();
    assert_eq!(state.current_section_index, 0);
    assert_eq!(state.section_remaining_beats, 0);
    assert_eq!(state.tick().tempo_override, Some(60));
}

#[test]
fn practice_position_past_the_list_loads_nothing() {
    let mut state = PracticeState {
        sections: vec![(60, 4)],
        current_section_index: 3,
        section_remaining_beats: 0,
    };
    assert_eq!(state.tick().tempo_override, None);
    assert_eq!(state.current_section_index, 3);
    assert_eq!(state.section_remaining_beats, 0);
}

#[test]
fn practice_copies_are_equal() {
    let sections = vec![(60, 4), (120, 8), (33, 0)];
    assert_eq!(copy_sections(&sections), sections);
    let state = PracticeState { sections, current_section_index: 2, section_remaining_beats: 5 };
    let copy = state.clone();
    assert_eq!(copy.sections, state.sections);
    assert_eq!(copy.current_section_index, 2);
    assert_eq!(copy.section_remaining_beats, 5);
}

#[test]
fn practice_add_and_remove_sections() {
    let mut state = PracticeState::new(vec![(60, 4), (120, 4)]);
    state.add_section(120, 32);
    assert_eq!(state.sections, vec![(60, 4), (120, 4), (120, 32)]);
    for _ in 0..9 {
        state.tick();
    }
    assert_eq!(state.current_section_index, 0);
    assert_eq!(state.section_remaining_beats, 31);
    state.current_section_index = 2;
    state.remove_section(0);
    assert_eq!(state.sections, vec![(120, 4), (120, 32)]);
    assert_eq!(state.current_section_index, 0);
    state.current_section_index = 1;
    state.remove_section(7);
    assert_eq!(state.sections, vec![(120, 4), (120, 32)]);
    assert_eq!(state.current_section_index, 1);
    state.remove_section(0);
    assert_eq!(state.sections, vec![(120, 32)]);
    assert_eq!(state.current_section_index, 0);
    state.remove_section(0);
    assert!(state.sections.is_empty());
    let mut empty = PracticeState { sections: Vec::new(), current_section_index: 4, section_remaining_beats: 0 };
    empty.add_section(77, 7);
    assert_eq!(empty.sections, vec![(77, 7)]);
    assert_eq!(empty.current_section_index, 0);
}
