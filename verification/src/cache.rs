use vstd::prelude::*;
use crate::sound_type::SoundType;

verus! {

/// What the console last drew, so that only what has changed is drawn
/// again.
#[derive(Debug)]
pub struct UICache {
    pub last_bpm: u32,
    pub last_sound: SoundType,
    pub last_status: bool,
    pub last_random_mode: bool,
    pub last_remaining_ticks: u32,
    pub last_random_count: u32,
    pub last_tick_count: u32,
    pub last_volume: u32,
    pub first_render: bool,
    pub animation_buffer: String,
    pub last_animation_frame: usize,
}

impl UICache {
    /// Whether nothing has been drawn yet: every number is 0, every flag but
    /// `first_render` is off, the sound is the default one and the animation
    /// is empty.
    pub open spec fn is_blank(&self) -> bool {
        &&& self.last_bpm == 0
        &&& self.last_sound == SoundType::Kick
        &&& !self.last_status
        &&& !self.last_random_mode
        &&& self.last_remaining_ticks == 0
        &&& self.last_random_count == 0
        &&& self.last_tick_count == 0
        &&& self.last_volume == 0
        &&& self.first_render
        &&& self.animation_buffer@ == Seq::<char>::empty()
        &&& self.last_animation_frame == 0
    }

    pub fn new() -> (cache: UICache)
        ensures
            cache.is_blank(),
    {
        UICache {
            last_bpm: 0,
            last_sound: SoundType::Kick,
            last_status: false,
            last_random_mode: false,
            last_remaining_ticks: 0,
            last_random_count: 0,
            last_tick_count: 0,
            last_volume: 0,
            first_render: true,
            animation_buffer: String::new(),
            last_animation_frame: 0,
        }
    }
}

} // verus!
