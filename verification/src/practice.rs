use vstd::prelude::*;
use crate::protocol::TickOutcome;

verus! {

/// The practice mode: a list of sections, each a tempo held for a number of
/// beats, played one after the other and then from the start again. A
/// section of four beats takes four ticks: the tick that loads it and sets
/// its tempo, and three more.
#[derive(Debug)]
pub struct PracticeState {
    /// Each section is a tempo and the number of beats it is held for.
    pub sections: Vec<(u32, u32)>,
    /// The section that the next rollover loads.
    pub current_section_index: u32,
    pub section_remaining_beats: u32,
}

/// What a `PracticeState` holds, as mathematical values.
pub struct PracticeView {
    pub sections: Seq<(u32, u32)>,
    pub current_section_index: u32,
    pub section_remaining_beats: u32,
}

impl View for PracticeState {
    type V = PracticeView;

    open spec fn view(&self) -> PracticeView {
        PracticeView {
            sections: self.sections@,
            current_section_index: self.current_section_index,
            section_remaining_beats: self.section_remaining_beats,
        }
    }
}

/// The three sections that a new practice mode holds.
pub open spec fn default_sections() -> Seq<(u32, u32)> {
    seq![(60u32, 32u32), (120u32, 32u32), (180u32, 32u32)]
}

impl PracticeView {
    pub open spec fn wf(self) -> bool {
        self.sections.len() > 0 ==> self.current_section_index < self.sections.len()
    }

    /// Whether this tick starts a section.
    pub open spec fn rolls_over(self) -> bool {
        self.section_remaining_beats == 0 && self.current_section_index < self.sections.len()
    }

    /// The index after `self.current_section_index`, back at 0 after the
    /// last section.
    pub open spec fn next_index(self) -> u32 {
        if self.current_section_index + 1 < self.sections.len() && self.current_section_index
            < u32::MAX {
            (self.current_section_index + 1) as u32
        } else {
            0
        }
    }

    /// The beats left before this tick takes its own beat away: those of
    /// the section that a rollover loads, the beats left otherwise.
    pub open spec fn beats_before_tick(self) -> u32 {
        if self.rolls_over() {
            self.sections[self.current_section_index as int].1
        } else {
            self.section_remaining_beats
        }
    }

    /// The state after one tick. A tick that finds no beat left is a
    /// rollover: it loads the current section and moves the index on, where
    /// there is a section to load. Every tick, the rollover too, then takes
    /// one beat away, if one is left: the tick that loads a section is the
    /// first of its beats.
    pub open spec fn ticked(self) -> PracticeView {
        PracticeView {
            sections: self.sections,
            current_section_index: if self.rolls_over() {
                self.next_index()
            } else {
                self.current_section_index
            },
            section_remaining_beats: if self.beats_before_tick() == 0 {
                0
            } else {
                (self.beats_before_tick() - 1) as u32
            },
        }
    }

    /// What one tick decides: a rollover sets the tempo of its section.
    pub open spec fn outcome(self) -> TickOutcome {
        TickOutcome {
            accent: false,
            alternate_sound: false,
            tempo_override: if self.rolls_over() {
                Some(self.sections[self.current_section_index as int].0)
            } else {
                None
            },
        }
    }

    /// The state at a fresh start: the first section is next.
    pub open spec fn restarted(self) -> PracticeView {
        PracticeView {
            sections: self.sections,
            current_section_index: 0,
            section_remaining_beats: 0,
        }
    }

    /// The state with another list of sections. The position is kept where
    /// the new list has such a section, and is the first section where not.
    pub open spec fn with_sections(self, sections: Seq<(u32, u32)>) -> PracticeView {
        PracticeView {
            sections,
            current_section_index: if self.current_section_index < sections.len() {
                self.current_section_index
            } else {
                0
            },
            section_remaining_beats: self.section_remaining_beats,
        }
    }

    /// The state after `n` ticks.
    pub open spec fn ticked_times(self, n: nat) -> PracticeView
        decreases n,
    {
        if n == 0 {
            self
        } else {
            self.ticked_times((n - 1) as nat).ticked()
        }
    }
}

/// A copy of a list of sections.
pub fn copy_sections(sections: &Vec<(u32, u32)>) -> (copy: Vec<(u32, u32)>)
    ensures
        copy@ == sections@,
{
    let mut copy: Vec<(u32, u32)> = Vec::new();
    let mut i: usize = 0;
    while i < sections.len()
        invariant
            i <= sections.len(),
            copy@ == sections@.subrange(0, i as int),
        decreases sections.len() - i,
    {
        copy.push(sections[i]);
        i = i + 1;
    }
    copy
}

impl Clone for PracticeState {
    fn clone(&self) -> (copy: PracticeState)
        ensures
            copy@ == self@,
    {
        PracticeState {
            sections: copy_sections(&self.sections),
            current_section_index: self.current_section_index,
            section_remaining_beats: self.section_remaining_beats,
        }
    }
}

impl PracticeState {
    /// A practice mode over the given sections, at a fresh start.
    pub fn new(sections: Vec<(u32, u32)>) -> (state: PracticeState)
        ensures
            state@.sections == sections@,
            state@.current_section_index == 0,
            state@.section_remaining_beats == 0,
            state@.wf(),
    {
        PracticeState { sections, current_section_index: 0, section_remaining_beats: 0 }
    }

    /// The practice mode of a new session: 32 beats each at 60, 120 and 180.
    pub fn with_default_sections() -> (state: PracticeState)
        ensures
            state@.sections == default_sections(),
            state@.current_section_index == 0,
            state@.section_remaining_beats == 0,
            state@.wf(),
    {
        let mut sections: Vec<(u32, u32)> = Vec::new();
        sections.push((60, 32));
        sections.push((120, 32));
        sections.push((180, 32));
        PracticeState::new(sections)
    }

    pub fn restart(&mut self)
        ensures
            final(self)@ == old(self)@.restarted(),
            final(self)@.wf(),
    {
        self.current_section_index = 0;
        self.section_remaining_beats = 0;
    }

    pub fn set_sections(&mut self, sections: Vec<(u32, u32)>)
        ensures
            final(self)@ == old(self)@.with_sections(sections@),
            final(self)@.wf(),
    {
        if self.current_section_index as usize >= sections.len() {
            self.current_section_index = 0;
        }
        self.sections = sections;
    }

    /// Adds a section at the end of the list.
    pub fn add_section(&mut self, tempo_bpm: u32, beats: u32)
        ensures
            final(self)@ == old(self)@.with_sections(old(self)@.sections.push((tempo_bpm, beats))),
            final(self)@.wf(),
    {
        self.sections.push((tempo_bpm, beats));
        if self.current_section_index as usize >= self.sections.len() {
            self.current_section_index = 0;
        }
    }

    /// Takes the section at `index` out of the list; an index past the list
    /// changes nothing. The position is kept where the shorter list has
    /// such a section, and is the first section where not.
    pub fn remove_section(&mut self, index: usize)
        ensures
            index < old(self)@.sections.len() ==> final(self)@ == old(self)@.with_sections(
                old(self)@.sections.remove(index as int),
            ),
            index >= old(self)@.sections.len() ==> final(self)@ == old(self)@,
            old(self)@.wf() || index < old(self)@.sections.len() ==> final(self)@.wf(),
    {
        if index < self.sections.len() {
            self.sections.remove(index);
            if self.current_section_index as usize >= self.sections.len() {
                self.current_section_index = 0;
            }
        }
    }

    pub fn tick(&mut self) -> (out: TickOutcome)
        ensures
            final(self)@ == old(self)@.ticked(),
            out == old(self)@.outcome(),
            old(self)@.wf() ==> final(self)@.wf(),
    {
        let mut out = TickOutcome::plain();
        let current: usize = self.current_section_index as usize;
        if self.section_remaining_beats == 0 && current < self.sections.len() {
            let (tempo, beats) = self.sections[current];
            out.tempo_override = Some(tempo);
            self.section_remaining_beats = beats;
            self.current_section_index = if current + 1 < self.sections.len()
                && self.current_section_index < u32::MAX {
                self.current_section_index + 1
            } else {
                0
            };
        }
        self.section_remaining_beats = self.section_remaining_beats.saturating_sub(1);
        out
    }
}

/// Where the list of sections is not longer than an index can count, the
/// index moves on by one modulo the number of sections.
pub proof fn lemma_next_index_is_modular(state: PracticeView)
    requires
        state.wf(),
        0 < state.sections.len() <= u32::MAX,
    ensures
        state.next_index() == (state.current_section_index + 1) % (state.sections.len() as int),
{
    let n = state.sections.len() as int;
    let c = state.current_section_index as int;
    if c + 1 < n {
        vstd::arithmetic::div_mod::lemma_small_mod((c + 1) as nat, n as nat);
    } else {
        vstd::arithmetic::div_mod::lemma_mod_self_0(n);
    }
}

/// While beats are left, each tick takes one away and nothing else
/// changes.
pub proof fn lemma_beats_count_down(state: PracticeView, ticks: nat)
    requires
        ticks <= state.section_remaining_beats,
    ensures
        state.ticked_times(ticks) == (PracticeView {
            section_remaining_beats: (state.section_remaining_beats - ticks) as u32,
            ..state
        }),
    decreases ticks,
{
    if ticks > 0 {
        lemma_beats_count_down(state, (ticks - 1) as nat);
    }
}

/// The ticks of a section after the one that loads it: one fewer than its
/// beats, and none for a section without beats.
pub open spec fn ticks_after_loading(beats: u32) -> nat {
    if beats == 0 {
        0
    } else {
        (beats - 1) as nat
    }
}

/// A section lasts exactly its beats: the rollover that loads it sets its
/// tempo and moves the index on, the ticks that count its other beats set
/// no tempo, and the tick after the last of them is the next rollover.
pub proof fn lemma_section_runs_its_beats(state: PracticeView, ticks: nat)
    requires
        state.wf(),
        state.rolls_over(),
        ticks <= ticks_after_loading(state.sections[state.current_section_index as int].1),
    ensures
        state.outcome().tempo_override == Some(state.sections[state.current_section_index as int].0),
        state.ticked().current_section_index == state.next_index(),
        state.ticked().ticked_times(ticks).current_section_index == state.next_index(),
        state.ticked().ticked_times(ticks).rolls_over() <==> ticks == ticks_after_loading(
            state.sections[state.current_section_index as int].1,
        ),
        !state.ticked().ticked_times(ticks).rolls_over() ==> state.ticked().ticked_times(
            ticks,
        ).outcome().tempo_override.is_none(),
{
    lemma_beats_count_down(state.ticked(), ticks);
}

/// With no section to load, a tick sets no tempo and leaves the index
/// alone; it only counts down the beats that may be left.
pub proof fn lemma_nothing_to_load(state: PracticeView)
    requires
        state.sections.len() == 0,
    ensures
        state.outcome().tempo_override.is_none(),
        state.ticked().current_section_index == state.current_section_index,
        state.section_remaining_beats == 0 ==> state.ticked() == state,
        state.section_remaining_beats > 0 ==> state.ticked().section_remaining_beats
            == state.section_remaining_beats - 1,
{
}

} // verus!
