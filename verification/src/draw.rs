use vstd::prelude::*;
use rand::Rng;

verus! {

/// The random values that one scheduler step may consume.
///
/// A step that needs no random value ignores them, so any in-range value
/// may stand in a field that is not needed.
#[derive(Clone, Copy, Debug, PartialEq, Eq, Structural)]
pub struct Draws {
    /// The next tempo of the random mode.
    pub random_tempo: u32,
    /// The next tempo of a countdown that varies its tempo.
    pub countdown_tempo: u32,
    /// The time until the countdown varies its tempo again, in milliseconds.
    pub countdown_delay_ms: u32,
}

pub const RANDOM_TEMPO_MIN: u32 = 60;

pub const RANDOM_TEMPO_MAX: u32 = 200;

pub const COUNTDOWN_TEMPO_MIN: u32 = 80;

pub const COUNTDOWN_TEMPO_MAX: u32 = 180;

pub const COUNTDOWN_DELAY_MIN_MS: u32 = 3000;

pub const COUNTDOWN_DELAY_MAX_MS: u32 = 8000;

impl Draws {
    /// Each value lies in the range it is drawn from.
    pub open spec fn in_range(self) -> bool {
        &&& RANDOM_TEMPO_MIN <= self.random_tempo <= RANDOM_TEMPO_MAX
        &&& COUNTDOWN_TEMPO_MIN <= self.countdown_tempo <= COUNTDOWN_TEMPO_MAX
        &&& COUNTDOWN_DELAY_MIN_MS <= self.countdown_delay_ms <= COUNTDOWN_DELAY_MAX_MS
    }

    /// The lowest value of each range.
    pub fn lowest() -> (d: Draws)
        ensures
            d.in_range(),
            d.random_tempo == RANDOM_TEMPO_MIN,
            d.countdown_tempo == COUNTDOWN_TEMPO_MIN,
            d.countdown_delay_ms == COUNTDOWN_DELAY_MIN_MS,
    {
        Draws {
            random_tempo: RANDOM_TEMPO_MIN,
            countdown_tempo: COUNTDOWN_TEMPO_MIN,
            countdown_delay_ms: COUNTDOWN_DELAY_MIN_MS,
        }
    }
}

/// Calls `rand::thread_rng().gen_range(low..=high)`.
///
/// Trusted: the value that `gen_range` returns for an inclusive range of
/// `u32` lies within the range. `gen_range` panics on an empty range, which
/// `requires` rules out; `thread_rng` panics where the operating system
/// cannot seed the generator, which no argument decides. Nothing is claimed
/// about which value comes back: two calls on the same range may differ.
#[verifier::external_body]
pub(crate) fn uniform_in(low: u32, high: u32) -> (drawn: u32)
    requires
        low <= high,
    ensures
        low <= drawn <= high,
{
    rand::thread_rng().gen_range(low..=high)
}

} // verus!
