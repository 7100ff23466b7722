use vstd::prelude::*;

verus! {

/// One of the seven timing strategies. Exactly one is active at a time.
#[derive(Clone, Copy, Debug, PartialEq, Eq, Structural)]
pub enum ModeTag {
    Standard,
    Random,
    Practice,
    Polyrhythm,
    Ritardando,
    Subdivision,
    Countdown,
}

impl ModeTag {
    /// The position of the mode in the list of modes, starting at 0.
    pub open spec fn spec_index(self) -> nat {
        match self {
            ModeTag::Standard => 0,
            ModeTag::Random => 1,
            ModeTag::Practice => 2,
            ModeTag::Polyrhythm => 3,
            ModeTag::Ritardando => 4,
            ModeTag::Subdivision => 5,
            ModeTag::Countdown => 6,
        }
    }

    /// The mode at a position; every position past the last one is `Standard`.
    pub open spec fn spec_from_index(index: nat) -> ModeTag {
        if index == 1 {
            ModeTag::Random
        } else if index == 2 {
            ModeTag::Practice
        } else if index == 3 {
            ModeTag::Polyrhythm
        } else if index == 4 {
            ModeTag::Ritardando
        } else if index == 5 {
            ModeTag::Subdivision
        } else if index == 6 {
            ModeTag::Countdown
        } else {
            ModeTag::Standard
        }
    }

    pub fn index(self) -> (i: usize)
        ensures
            i == self.spec_index(),
            i < 7,
    {
        match self {
            ModeTag::Standard => 0,
            ModeTag::Random => 1,
            ModeTag::Practice => 2,
            ModeTag::Polyrhythm => 3,
            ModeTag::Ritardando => 4,
            ModeTag::Subdivision => 5,
            ModeTag::Countdown => 6,
        }
    }

    pub fn from_index(index: usize) -> (mode: ModeTag)
        ensures
            mode == Self::spec_from_index(index as nat),
    {
        match index {
            1 => ModeTag::Random,
            2 => ModeTag::Practice,
            3 => ModeTag::Polyrhythm,
            4 => ModeTag::Ritardando,
            5 => ModeTag::Subdivision,
            6 => ModeTag::Countdown,
            _ => ModeTag::Standard,
        }
    }

    /// Storing a mode as its index and reading it back gives the mode again.
    pub proof fn lemma_index_round_trip(mode: ModeTag)
        ensures
            Self::spec_from_index(mode.spec_index()) == mode,
    {
    }
}

} // verus!
