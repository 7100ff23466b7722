use vstd::prelude::*;
use vstd::arithmetic::div_mod::*;
use crate::protocol::TickOutcome;

verus! {

/// The ritardando mode: the tempo moves in a straight line from `start_bpm`
/// to `target_bpm` over `ramp_length_beats` beats, then starts over.
#[derive(Clone, Copy, Debug, PartialEq, Eq, Structural)]
pub struct RitardandoState {
    pub start_bpm: u32,
    pub target_bpm: u32,
    pub ramp_length_beats: u32,
    pub remaining_beats: u32,
}

/// `p / q`, rounded to the nearest integer, halves upwards.
pub open spec fn rounded_div(p: int, q: int) -> int {
    (2 * p + q) / (q + q)
}

/// The tempo on the line from `start` to `target` after `elapsed` of
/// `length` beats: `start - (start - target) * elapsed / length`, rounded,
/// and 1 where that would be 0.
pub open spec fn ramp_tempo(start: int, target: int, length: int, elapsed: int) -> int {
    let tempo = rounded_div(start * length - (start - target) * elapsed, length);
    if tempo < 1 {
        1
    } else {
        tempo
    }
}

/// The ramp length nearest to `length` that the mode accepts.
pub open spec fn clamped_length(length: u32) -> u32 {
    if length == 0 {
        1
    } else {
        length
    }
}

impl RitardandoState {
    pub open spec fn wf(self) -> bool {
        self.ramp_length_beats >= 1 && self.remaining_beats <= self.ramp_length_beats
    }

    /// The beats left at this tick: a ramp that has run out starts over.
    pub open spec fn beats_before_tick(self) -> u32 {
        if self.remaining_beats == 0 {
            self.ramp_length_beats
        } else {
            self.remaining_beats
        }
    }

    /// The beats of the ramp that lie behind this tick.
    pub open spec fn elapsed_beats(self) -> int {
        if self.beats_before_tick() <= self.ramp_length_beats {
            self.ramp_length_beats - self.beats_before_tick()
        } else {
            0
        }
    }

    /// The tempo that this tick sets.
    pub open spec fn tempo_at_tick(self) -> int {
        ramp_tempo(
            self.start_bpm as int,
            self.target_bpm as int,
            clamped_length(self.ramp_length_beats) as int,
            self.elapsed_beats(),
        )
    }

    /// The state after one tick.
    pub open spec fn ticked(self) -> RitardandoState {
        RitardandoState {
            start_bpm: self.start_bpm,
            target_bpm: self.target_bpm,
            ramp_length_beats: self.ramp_length_beats,
            remaining_beats: if self.beats_before_tick() == 0 {
                0
            } else {
                (self.beats_before_tick() - 1) as u32
            },
        }
    }

    /// What one tick decides.
    pub open spec fn outcome(self) -> TickOutcome {
        TickOutcome {
            accent: false,
            alternate_sound: false,
            tempo_override: Some(self.tempo_at_tick() as u32),
        }
    }

    /// The state at a fresh start: the whole ramp lies ahead.
    pub open spec fn restarted(self) -> RitardandoState {
        RitardandoState {
            start_bpm: self.start_bpm,
            target_bpm: self.target_bpm,
            ramp_length_beats: self.ramp_length_beats,
            remaining_beats: self.ramp_length_beats,
        }
    }

    /// The state with other settings. A ramp length of 0 is raised to 1, and
    /// no more beats remain than the new ramp is long.
    pub open spec fn with_settings(self, start: u32, target: u32, ramp_length: u32) -> RitardandoState {
        RitardandoState {
            start_bpm: start,
            target_bpm: target,
            ramp_length_beats: clamped_length(ramp_length),
            remaining_beats: if self.remaining_beats <= clamped_length(ramp_length) {
                self.remaining_beats
            } else {
                clamped_length(ramp_length)
            },
        }
    }

    /// The state after `n` ticks.
    pub open spec fn ticked_times(self, n: nat) -> RitardandoState
        decreases n,
    {
        if n == 0 {
            self
        } else {
            self.ticked_times((n - 1) as nat).ticked()
        }
    }

    /// A ramp from `start` to `target` over `ramp_length` beats, at a fresh
    /// start; a ramp length of 0 is raised to 1.
    pub fn new(start: u32, target: u32, ramp_length: u32) -> (state: RitardandoState)
        ensures
            state.start_bpm == start,
            state.target_bpm == target,
            state.ramp_length_beats == clamped_length(ramp_length),
            state.remaining_beats == state.ramp_length_beats,
            state.wf(),
    {
        let length: u32 = if ramp_length == 0 {
            1
        } else {
            ramp_length
        };
        RitardandoState {
            start_bpm: start,
            target_bpm: target,
            ramp_length_beats: length,
            remaining_beats: length,
        }
    }

    pub fn restart(&mut self)
        ensures
            *final(self) == old(self).restarted(),
            old(self).wf() ==> final(self).wf(),
    {
        self.remaining_beats = self.ramp_length_beats;
    }

    pub fn set(&mut self, start: u32, target: u32, ramp_length: u32)
        ensures
            *final(self) == old(self).with_settings(start, target, ramp_length),
            final(self).wf(),
    {
        let length: u32 = if ramp_length == 0 {
            1
        } else {
            ramp_length
        };
        self.start_bpm = start;
        self.target_bpm = target;
        self.ramp_length_beats = length;
        if self.remaining_beats > length {
            self.remaining_beats = length;
        }
    }

    pub fn tick(&mut self) -> (out: TickOutcome)
        ensures
            *final(self) == old(self).ticked(),
            out == old(self).outcome(),
            old(self).wf() ==> final(self).wf(),
            old(self).elapsed_beats() == 0 && old(self).start_bpm >= 1 ==> out.tempo_override
                == Some(old(self).start_bpm),
    {
        let before: u32 = if self.remaining_beats == 0 {
            self.ramp_length_beats
        } else {
            self.remaining_beats
        };
        let length: u32 = if self.ramp_length_beats == 0 {
            1
        } else {
            self.ramp_length_beats
        };
        let elapsed: u32 = if before <= self.ramp_length_beats {
            self.ramp_length_beats - before
        } else {
            0
        };
        let tempo = interpolate(self.start_bpm, self.target_bpm, length, elapsed);
        self.remaining_beats = before.saturating_sub(1);
        TickOutcome { accent: false, alternate_sound: false, tempo_override: Some(tempo) }
    }
}

/// The tempo after `elapsed` of `length` beats on the way from `start` to
/// `target`.
pub fn interpolate(start: u32, target: u32, length: u32, elapsed: u32) -> (tempo: u32)
    requires
        length >= 1,
        elapsed <= length,
    ensures
        tempo == ramp_tempo(start as int, target as int, length as int, elapsed as int),
        tempo >= 1,
        start <= target ==> start <= tempo && (tempo <= target || tempo == 1),
        target <= start ==> target <= tempo && (tempo <= start || tempo == 1),
        elapsed == 0 && start >= 1 ==> tempo == start,
        elapsed == length && target >= 1 ==> tempo == target,
{
    let ahead: u128 = (length - elapsed) as u128;
    let behind: u128 = elapsed as u128;
    let whole: u128 = length as u128;
    proof {
        lemma_weights(start as int, target as int, length as int, elapsed as int);
        lemma_ramp_within(start as int, target as int, length as int, elapsed as int);
        lemma_ramp_ends(start as int, target as int, length as int);
    }
    assert(start as u128 * ahead <= 0xffff_ffff * 0xffff_ffff) by (nonlinear_arith)
        requires
            start <= 0xffff_ffff,
            ahead <= 0xffff_ffff,
    ;
    assert(target as u128 * behind <= 0xffff_ffff * 0xffff_ffff) by (nonlinear_arith)
        requires
            target <= 0xffff_ffff,
            behind <= 0xffff_ffff,
    ;
    let scaled: u128 = start as u128 * ahead + target as u128 * behind;
    let rounded: u128 = (2 * scaled + whole) / (whole + whole);
    if rounded < 1 {
        1
    } else {
        rounded as u32
    }
}

/// The scaled tempo, written as the two ends weighted by the beats ahead
/// and behind.
proof fn lemma_weights(start: int, target: int, length: int, elapsed: int)
    ensures
        start * length - (start - target) * elapsed == start * (length - elapsed) + target
            * elapsed,
{
    assert(start * length - (start - target) * elapsed == start * (length - elapsed) + target
        * elapsed) by (nonlinear_arith);
}

/// The rounded quotient is at least `low` and at most `high` where `p / q`
/// lies between them.
proof fn lemma_rounded_div_within(p: int, q: int, low: int, high: int)
    requires
        q >= 1,
        low * q <= p <= high * q,
    ensures
        low <= rounded_div(p, q) <= high,
{
    let d = q + q;
    let x = 2 * p + q;
    lemma_fundamental_div_mod(x, d);
    lemma_mod_bound(x, d);
    let k = x / d;
    assert(low <= k) by (nonlinear_arith)
        requires
            x == d * k + x % d,
            0 <= x % d < d,
            d == q + q,
            x == 2 * p + q,
            q >= 1,
            low * q <= p,
    ;
    assert(k <= high) by (nonlinear_arith)
        requires
            x == d * k + x % d,
            0 <= x % d < d,
            d == q + q,
            x == 2 * p + q,
            q >= 1,
            p <= high * q,
    ;
}

/// The rounded quotient does not fall where the numerator grows.
proof fn lemma_rounded_div_monotonic(smaller: int, larger: int, q: int)
    requires
        q >= 1,
        smaller <= larger,
    ensures
        rounded_div(smaller, q) <= rounded_div(larger, q),
{
    lemma_div_is_ordered(2 * smaller + q, 2 * larger + q, q + q);
}

/// Along the ramp the tempo lies between its two ends, or is 1 where an end
/// is 0.
pub proof fn lemma_ramp_within(start: int, target: int, length: int, elapsed: int)
    requires
        start >= 0,
        target >= 0,
        length >= 1,
        0 <= elapsed <= length,
    ensures
        1 <= ramp_tempo(start, target, length, elapsed),
        start <= target ==> start <= ramp_tempo(start, target, length, elapsed) <= (if target
            < 1 {
            1
        } else {
            target
        }),
        target <= start ==> target <= ramp_tempo(start, target, length, elapsed) <= (if start
            < 1 {
            1
        } else {
            start
        }),
{
    let p = start * length - (start - target) * elapsed;
    if start <= target {
        assert(start * length <= p <= target * length) by (nonlinear_arith)
            requires
                p == start * length - (start - target) * elapsed,
                start <= target,
                0 <= elapsed <= length,
        ;
        lemma_rounded_div_within(p, length, start, target);
    } else {
        assert(target * length <= p <= start * length) by (nonlinear_arith)
            requires
                p == start * length - (start - target) * elapsed,
                target <= start,
                0 <= elapsed <= length,
        ;
        lemma_rounded_div_within(p, length, target, start);
    }
}

/// The line begins at the start tempo and ends, `length` beats along, at the
/// target tempo exactly; a tempo of 0 at either end is raised to 1.
///
/// No tick sets the tempo at the end of the line: the last tick of a ramp
/// sets the tempo that lies `length - 1` beats along, and the tick after it
/// starts the ramp over at the start tempo. From 120 to 180 over 64 beats
/// the last tick sets 179.
pub proof fn lemma_ramp_ends(start: int, target: int, length: int)
    requires
        start >= 0,
        target >= 0,
        length >= 1,
    ensures
        ramp_tempo(start, target, length, 0) == (if start < 1 {
            1
        } else {
            start
        }),
        ramp_tempo(start, target, length, length) == (if target < 1 {
            1
        } else {
            target
        }),
{
    assert(start * length - (start - target) * 0 == start * length) by (nonlinear_arith);
    assert(start * length - (start - target) * length == target * length) by (nonlinear_arith);
    lemma_rounded_div_within(start * length, length, start, start);
    lemma_rounded_div_within(target * length, length, target, target);
}

/// The tempo along a ramp moves one way only: it does not fall on the way to
/// a target at or above the start, and does not rise on the way to a target
/// below it.
pub proof fn lemma_ramp_monotonic(start: int, target: int, length: int, earlier: int, later: int)
    requires
        length >= 1,
        0 <= earlier <= later <= length,
    ensures
        start <= target ==> ramp_tempo(start, target, length, earlier) <= ramp_tempo(
            start,
            target,
            length,
            later,
        ),
        target <= start ==> ramp_tempo(start, target, length, earlier) >= ramp_tempo(
            start,
            target,
            length,
            later,
        ),
{
    let near = start * length - (start - target) * earlier;
    let far = start * length - (start - target) * later;
    if start <= target {
        assert(near <= far) by (nonlinear_arith)
            requires
                near == start * length - (start - target) * earlier,
                far == start * length - (start - target) * later,
                start <= target,
                earlier <= later,
        ;
        lemma_rounded_div_monotonic(near, far, length);
    }
    if target <= start {
        assert(far <= near) by (nonlinear_arith)
            requires
                near == start * length - (start - target) * earlier,
                far == start * length - (start - target) * later,
                target <= start,
                earlier <= later,
        ;
        lemma_rounded_div_monotonic(far, near, length);
    }
}

/// From a fresh start, the tick after `n` earlier ticks of the same ramp sets
/// the tempo that lies `n` beats along the line, and leaves one beat fewer.
pub proof fn lemma_tempo_of_tick(state: RitardandoState, n: nat)
    requires
        state.wf(),
        state.remaining_beats == state.ramp_length_beats,
        n < state.ramp_length_beats,
    ensures
        state.ticked_times(n).remaining_beats == state.ramp_length_beats - n,
        state.ticked_times(n).start_bpm == state.start_bpm,
        state.ticked_times(n).target_bpm == state.target_bpm,
        state.ticked_times(n).ramp_length_beats == state.ramp_length_beats,
        state.ticked_times(n).tempo_at_tick() == ramp_tempo(
            state.start_bpm as int,
            state.target_bpm as int,
            state.ramp_length_beats as int,
            n as int,
        ),
    decreases n,
{
    if n > 0 {
        lemma_tempo_of_tick(state, (n - 1) as nat);
    }
}

/// Across a full ramp from a fresh start, the tempos that the ticks set move
/// one way only, from the start tempo towards the target tempo.
pub proof fn lemma_ticks_monotonic(state: RitardandoState, earlier: nat, later: nat)
    requires
        state.wf(),
        state.remaining_beats == state.ramp_length_beats,
        earlier <= later < state.ramp_length_beats,
    ensures
        state.start_bpm <= state.target_bpm ==> state.ticked_times(earlier).tempo_at_tick()
            <= state.ticked_times(later).tempo_at_tick(),
        state.target_bpm <= state.start_bpm ==> state.ticked_times(earlier).tempo_at_tick()
            >= state.ticked_times(later).tempo_at_tick(),
        state.start_bpm >= 1 ==> state.ticked_times(0).tempo_at_tick() == state.start_bpm,
{
    lemma_tempo_of_tick(state, earlier);
    lemma_tempo_of_tick(state, later);
    lemma_tempo_of_tick(state, 0);
    lemma_ramp_monotonic(
        state.start_bpm as int,
        state.target_bpm as int,
        state.ramp_length_beats as int,
        earlier as int,
        later as int,
    );
    if state.start_bpm >= 1 {
        let s = state.start_bpm as int;
        let l = state.ramp_length_beats as int;
        assert(s * l - (s - state.target_bpm as int) * 0 == s * l) by (nonlinear_arith);
        lemma_rounded_div_within(s * l, l, s, s);
    }
}

} // verus!
