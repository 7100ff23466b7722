use vstd::prelude::*;
use crate::mode::ModeTag;

verus! {

/// An intent sent from the control surface to the scheduler.
#[derive(Clone, Debug, PartialEq, Eq)]
pub enum Command {
    Start,
    Stop,
    SetTempo(u32),
    SetVolume(u32),
    SetSound(u32),
    SetMode(ModeTag),
    UpdateRandom { interval_beats: u32 },
    UpdatePractice { sections: Vec<(u32, u32)> },
    UpdatePolyrhythm { primary: u32, secondary: u32, accent_primary: bool, accent_secondary: bool },
    UpdateRitardando { start: u32, target: u32, ramp_length: u32 },
    UpdateSubdivision { factor: u32, pattern: Vec<bool> },
    UpdateCountdown { duration_seconds: u32, randomize_tempo: bool },
    Reset,
}

/// A notification sent from the scheduler outward.
#[derive(Clone, Debug, PartialEq, Eq)]
pub enum Event {
    Beat { beat_count: u32, is_accent: bool },
    ModeChanged { mode: ModeTag },
    TempoChanged { bpm: u32 },
    CountdownFinished,
    Error { message: String },
}

/// What a mode decides for one tick.
#[derive(Clone, Copy, Debug, PartialEq, Eq, Structural)]
pub struct TickOutcome {
    pub accent: bool,
    pub alternate_sound: bool,
    pub tempo_override: Option<u32>,
}

impl TickOutcome {
    /// A tick without accent, alternate sound or tempo change.
    pub open spec fn spec_plain() -> TickOutcome {
        TickOutcome { accent: false, alternate_sound: false, tempo_override: None }
    }

    pub fn plain() -> (out: TickOutcome)
        ensures
            out == Self::spec_plain(),
    {
        TickOutcome { accent: false, alternate_sound: false, tempo_override: None }
    }
}

/// A sound that the audio sink is asked to play.
#[derive(Clone, Copy, Debug, PartialEq, Eq, Structural)]
pub struct SoundRequest {
    pub sound_id: u32,
    /// The gain in thousandths: 1000 stands for full volume.
    pub gain_permille: u32,
}

} // verus!
