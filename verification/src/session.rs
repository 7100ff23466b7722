use vstd::prelude::*;
use crate::mode::ModeTag;
use crate::timing::VOLUME_MAX;

verus! {

pub const TEMPO_DEFAULT: u32 = 120;

pub const VOLUME_DEFAULT: u32 = 80;

/// What a session shows of itself: the scheduler writes it, anyone may read
/// a copy.
#[derive(Clone, Copy, Debug, PartialEq, Eq, Structural)]
pub struct SessionState {
    pub tempo_bpm: u32,
    pub running: bool,
    pub volume_percent: u32,
    pub sound_id: u32,
    pub beat_count: u32,
    pub active_mode: ModeTag,
    /// The time of the last beat, in milliseconds of the scheduler's clock.
    pub last_beat_ms: u64,
}

impl SessionState {
    pub open spec fn wf(self) -> bool {
        self.volume_percent <= VOLUME_MAX
    }

    /// The session as it is before anything has happened.
    pub open spec fn initial(now_ms: u64) -> SessionState {
        SessionState {
            tempo_bpm: TEMPO_DEFAULT,
            running: false,
            volume_percent: VOLUME_DEFAULT,
            sound_id: 0,
            beat_count: 0,
            active_mode: ModeTag::Standard,
            last_beat_ms: now_ms,
        }
    }

    /// A stopped session in the standard mode: tempo 120, volume 80, the
    /// first sound.
    pub fn new(now_ms: u64) -> (session: SessionState)
        ensures
            session == Self::initial(now_ms),
            session.wf(),
    {
        SessionState {
            tempo_bpm: TEMPO_DEFAULT,
            running: false,
            volume_percent: VOLUME_DEFAULT,
            sound_id: 0,
            beat_count: 0,
            active_mode: ModeTag::Standard,
            last_beat_ms: now_ms,
        }
    }
}

} // verus!
