use vstd::prelude::*;
use crate::protocol::TickOutcome;

verus! {

/// The polyrhythm mode: two periods laid over the beat count. A beat on the
/// primary period may be accented, one on the secondary period may take the
/// alternate sound.
#[derive(Clone, Copy, Debug, PartialEq, Eq, Structural)]
pub struct PolyrhythmState {
    pub primary_period: u32,
    pub secondary_period: u32,
    pub accent_primary: bool,
    pub accent_secondary: bool,
}

/// Whether `beat_count` falls on a multiple of `period`. A period of 0 is
/// never hit.
pub open spec fn period_hit(beat_count: u32, period: u32) -> bool {
    period > 0 && beat_count as int % period as int == 0
}

/// The period nearest to `period` that the mode accepts.
pub open spec fn clamped_period(period: u32) -> u32 {
    if period == 0 {
        1
    } else {
        period
    }
}

impl PolyrhythmState {
    pub open spec fn wf(self) -> bool {
        self.primary_period >= 1 && self.secondary_period >= 1
    }

    /// What the tick at `beat_count` decides.
    pub open spec fn outcome(self, beat_count: u32) -> TickOutcome {
        TickOutcome {
            accent: period_hit(beat_count, self.primary_period) && self.accent_primary,
            alternate_sound: period_hit(beat_count, self.secondary_period)
                && self.accent_secondary,
            tempo_override: None,
        }
    }

    /// A polyrhythm of `primary` against `secondary`; a period of 0 is
    /// raised to 1.
    pub fn new(primary: u32, secondary: u32, accent_primary: bool, accent_secondary: bool) -> (state:
        PolyrhythmState)
        ensures
            state.primary_period == clamped_period(primary),
            state.secondary_period == clamped_period(secondary),
            state.accent_primary == accent_primary,
            state.accent_secondary == accent_secondary,
            state.wf(),
    {
        PolyrhythmState {
            primary_period: if primary == 0 {
                1
            } else {
                primary
            },
            secondary_period: if secondary == 0 {
                1
            } else {
                secondary
            },
            accent_primary,
            accent_secondary,
        }
    }

    /// The tick at `beat_count`. The mode keeps no count of its own, so the
    /// state is the same after the tick.
    pub fn tick(&self, beat_count: u32) -> (out: TickOutcome)
        ensures
            out == self.outcome(beat_count),
    {
        let primary_hit = self.primary_period > 0 && beat_count % self.primary_period == 0;
        let secondary_hit = self.secondary_period > 0 && beat_count % self.secondary_period == 0;
        TickOutcome {
            accent: primary_hit && self.accent_primary,
            alternate_sound: secondary_hit && self.accent_secondary,
            tempo_override: None,
        }
    }
}

/// A beat count that is a multiple of both periods is accented and takes the
/// alternate sound, where both accents are switched on.
pub proof fn lemma_common_multiple_hits_both(state: PolyrhythmState, beat_count: u32)
    requires
        state.wf(),
        state.accent_primary,
        state.accent_secondary,
        beat_count as int % state.primary_period as int == 0,
        beat_count as int % state.secondary_period as int == 0,
    ensures
        state.outcome(beat_count).accent,
        state.outcome(beat_count).alternate_sound,
{
}

} // verus!
