use vstd::prelude::*;

verus! {

/// The sounds that a console metronome can tick with, in the order in which
/// they are cycled through.
#[derive(Clone, Copy, Debug, PartialEq, Eq, Hash, Structural)]
pub enum SoundType {
    Beep,
    Kick,
    Click,
    Cowbell,
    Hihat,
    Square,
    Triangle,
    Woodblock,
}

/// The number of sounds.
pub const SOUND_TYPES: usize = 8;

impl Default for SoundType {
    fn default() -> (sound: SoundType)
        ensures
            sound == SoundType::Kick,
    {
        SoundType::Kick
    }
}

impl SoundType {
    /// The position of the sound in the cycle, starting at 0.
    pub open spec fn spec_index(self) -> nat {
        match self {
            SoundType::Beep => 0,
            SoundType::Kick => 1,
            SoundType::Click => 2,
            SoundType::Cowbell => 3,
            SoundType::Hihat => 4,
            SoundType::Square => 5,
            SoundType::Triangle => 6,
            SoundType::Woodblock => 7,
        }
    }

    /// The sound at a position of the cycle; every position past the last
    /// one gives the last sound.
    pub open spec fn spec_at(index: nat) -> SoundType {
        if index == 0 {
            SoundType::Beep
        } else if index == 1 {
            SoundType::Kick
        } else if index == 2 {
            SoundType::Click
        } else if index == 3 {
            SoundType::Cowbell
        } else if index == 4 {
            SoundType::Hihat
        } else if index == 5 {
            SoundType::Square
        } else if index == 6 {
            SoundType::Triangle
        } else {
            SoundType::Woodblock
        }
    }

    /// The sound after this one; the first follows the last.
    pub open spec fn spec_next(self) -> SoundType {
        Self::spec_at((self.spec_index() + 1) % (SOUND_TYPES as nat))
    }

    /// The sound before this one; the last precedes the first.
    pub open spec fn spec_prev(self) -> SoundType {
        Self::spec_at((self.spec_index() + SOUND_TYPES as nat - 1) as nat % (SOUND_TYPES as nat))
    }

    pub open spec fn spec_name(self) -> Seq<char> {
        match self {
            SoundType::Beep => "Beep"@,
            SoundType::Kick => "Kick"@,
            SoundType::Click => "Click"@,
            SoundType::Cowbell => "Cowbell"@,
            SoundType::Hihat => "Hi-hat"@,
            SoundType::Square => "Square"@,
            SoundType::Triangle => "Triangle"@,
            SoundType::Woodblock => "Woodblock"@,
        }
    }

    pub open spec fn spec_icon(self) -> Seq<char> {
        match self {
            SoundType::Beep => "🔔"@,
            SoundType::Kick => "🥁"@,
            SoundType::Click => "🖱️"@,
            SoundType::Cowbell => "🔔"@,
            SoundType::Hihat => "🎺"@,
            SoundType::Square => "⬜"@,
            SoundType::Triangle => "🔺"@,
            SoundType::Woodblock => "🪵"@,
        }
    }

    pub fn index(&self) -> (index: usize)
        ensures
            index == self.spec_index(),
            index < SOUND_TYPES,
    {
        match self {
            SoundType::Beep => 0,
            SoundType::Kick => 1,
            SoundType::Click => 2,
            SoundType::Cowbell => 3,
            SoundType::Hihat => 4,
            SoundType::Square => 5,
            SoundType::Triangle => 6,
            SoundType::Woodblock => 7,
        }
    }

    pub fn at(index: usize) -> (sound: SoundType)
        ensures
            sound == Self::spec_at(index as nat),
    {
        match index {
            0 => SoundType::Beep,
            1 => SoundType::Kick,
            2 => SoundType::Click,
            3 => SoundType::Cowbell,
            4 => SoundType::Hihat,
            5 => SoundType::Square,
            6 => SoundType::Triangle,
            _ => SoundType::Woodblock,
        }
    }

    pub fn next(&self) -> (sound: SoundType)
        ensures
            sound == self.spec_next(),
    {
        Self::at((self.index() + 1) % SOUND_TYPES)
    }

    pub fn prev(&self) -> (sound: SoundType)
        ensures
            sound == self.spec_prev(),
    {
        Self::at((self.index() + SOUND_TYPES - 1) % SOUND_TYPES)
    }

    pub fn name(&self) -> (name: &'static str)
        ensures
            name@ == self.spec_name(),
    {
        match self {
            SoundType::Beep => "Beep",
            SoundType::Kick => "Kick",
            SoundType::Click => "Click",
            SoundType::Cowbell => "Cowbell",
            SoundType::Hihat => "Hi-hat",
            SoundType::Square => "Square",
            SoundType::Triangle => "Triangle",
            SoundType::Woodblock => "Woodblock",
        }
    }

    pub fn icon(&self) -> (icon: &'static str)
        ensures
            icon@ == self.spec_icon(),
    {
        match self {
            SoundType::Beep => "🔔",
            SoundType::Kick => "🥁",
            SoundType::Click => "🖱️",
            SoundType::Cowbell => "🔔",
            SoundType::Hihat => "🎺",
            SoundType::Square => "⬜",
            SoundType::Triangle => "🔺",
            SoundType::Woodblock => "🪵",
        }
    }
}

/// Stepping forward and then back, or back and then forward, gives the same
/// sound again, and a sound is found again at its own position.
pub proof fn lemma_cycle_round_trip(sound: SoundType)
    ensures
        sound.spec_next().spec_prev() == sound,
        sound.spec_prev().spec_next() == sound,
        SoundType::spec_at(sound.spec_index()) == sound,
{
}

} // verus!
