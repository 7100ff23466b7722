use vstd::prelude::*;
use crate::random::RandomState;
use crate::sound_type::{SoundType, SOUND_TYPES};

verus! {

/// What `get_last_tick_elapsed` answers before the first tick: 999 seconds,
/// in nanoseconds.
pub const NEVER_TICKED_NANOS: u64 = 999_000_000_000;

/// The state of a console metronome.
#[derive(Clone, Copy, Debug, PartialEq, Eq, Structural)]
pub struct AtomicState {
    pub bpm: u32,
    pub is_running: bool,
    pub random_mode: bool,
    /// The number of ticks after which the random mode draws a new tempo.
    pub random_count: u32,
    pub remaining_ticks: u32,
    /// The position of the chosen sound in the cycle of sounds.
    pub sound_type: u32,
    pub ui_dirty: bool,
    /// The time of the last tick in nanoseconds, or 0 before the first.
    pub last_tick_time: u64,
    pub tick_count: u32,
    pub volume: u32,
}

impl AtomicState {
    /// The state of a metronome that has just been switched on.
    pub open spec fn initial() -> AtomicState {
        AtomicState {
            bpm: 120,
            is_running: false,
            random_mode: false,
            random_count: 100,
            remaining_ticks: 0,
            sound_type: 1,
            ui_dirty: true,
            last_tick_time: 0,
            tick_count: 0,
            volume: 80,
        }
    }

    /// The random mode, seen as the random mode of the scheduler: the count
    /// setting is its interval, the ticks left are its beats left.
    pub open spec fn countdown(self) -> RandomState {
        RandomState { interval_beats: self.random_count, remaining_beats: self.remaining_ticks }
    }

    /// The count setting lies between 10 and 500, no more ticks are left
    /// than it counts, and the volume is at most 100.
    pub open spec fn wf(self) -> bool {
        self.countdown().wf() && self.volume <= 100
    }

    /// The chosen sound; a position past the last sound stands for the last.
    pub open spec fn sound(self) -> SoundType {
        SoundType::spec_at(self.sound_type as nat)
    }

    /// The time since the last tick as seen at `now_nanos`.
    pub open spec fn elapsed_nanos(self, now_nanos: u64) -> u64 {
        if self.last_tick_time == 0 {
            NEVER_TICKED_NANOS
        } else if now_nanos >= self.last_tick_time {
            (now_nanos - self.last_tick_time) as u64
        } else {
            0
        }
    }

    /// The tick count after one more tick; it starts over after the largest
    /// value.
    pub open spec fn next_tick_count(self) -> u32 {
        if self.tick_count == u32::MAX {
            0
        } else {
            (self.tick_count + 1) as u32
        }
    }

    pub fn new() -> (state: AtomicState)
        ensures
            state == Self::initial(),
            state.wf(),
    {
        AtomicState {
            bpm: 120,
            is_running: false,
            random_mode: false,
            random_count: 100,
            remaining_ticks: 0,
            sound_type: 1,
            ui_dirty: true,
            last_tick_time: 0,
            tick_count: 0,
            volume: 80,
        }
    }

    pub fn get_sound_type(&self) -> (sound: SoundType)
        ensures
            sound == self.sound(),
    {
        let index: usize = self.sound_type as usize;
        if index < SOUND_TYPES - 1 {
            SoundType::at(index)
        } else {
            SoundType::at(SOUND_TYPES - 1)
        }
    }

    pub fn set_sound_type(&mut self, sound_type: SoundType)
        ensures
            *final(self) == (AtomicState { sound_type: sound_type.spec_index() as u32, ..*old(self) }),
            final(self).sound() == sound_type,
            old(self).wf() ==> final(self).wf(),
    {
        self.sound_type = sound_type.index() as u32;
    }

    /// Records a tick at `now_nanos`, the time in nanoseconds since the
    /// epoch.
    pub fn update_tick(&mut self, now_nanos: u64)
        ensures
            *final(self) == (AtomicState {
                last_tick_time: now_nanos,
                tick_count: old(self).next_tick_count(),
                ..*old(self)
            }),
            old(self).wf() ==> final(self).wf(),
    {
        self.last_tick_time = now_nanos;
        self.tick_count = self.tick_count.wrapping_add(1);
    }

    /// The time since the last tick in nanoseconds, as seen at `now_nanos`;
    /// 999 seconds before the first tick.
    pub fn get_last_tick_elapsed(&self, now_nanos: u64) -> (elapsed: u64)
        ensures
            elapsed == self.elapsed_nanos(now_nanos),
    {
        if self.last_tick_time == 0 {
            return NEVER_TICKED_NANOS;
        }
        now_nanos.saturating_sub(self.last_tick_time)
    }
}

} // verus!
