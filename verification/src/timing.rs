use vstd::prelude::*;
use crate::mode::ModeTag;
use crate::subdivision::multiplier;

verus! {

pub const MS_PER_MINUTE: u64 = 60000;

/// The number of sounds that a tick can take.
pub const SOUND_COUNT: u32 = 8;

/// The sound that marks the end of a countdown.
pub const CELEBRATION_SOUND: u32 = 8;

/// Full gain, in thousandths.
pub const FULL_GAIN: u32 = 1000;

pub const VOLUME_MAX: u32 = 100;

/// How long the scheduler sleeps between two looks at the clock.
pub const POLL_MS: u64 = 1;

/// The tempo at which ticks follow each other: `tempo_bpm`, or 1 where that
/// is 0; in the subdivision mode twice that for eighths, three times for
/// triplets and four times for sixteenths.
pub open spec fn effective_bpm(tempo_bpm: u32, mode: ModeTag, subdivision_factor: u32) -> int {
    let tempo: int = if tempo_bpm == 0 {
        1
    } else {
        tempo_bpm as int
    };
    if mode != ModeTag::Subdivision {
        tempo
    } else if subdivision_factor == 2 {
        2 * tempo
    } else if subdivision_factor == 3 {
        3 * tempo
    } else if subdivision_factor == 4 {
        4 * tempo
    } else {
        tempo
    }
}

/// The time between two ticks, in milliseconds.
pub open spec fn beat_interval_ms(tempo_bpm: u32, mode: ModeTag, subdivision_factor: u32) -> int {
    MS_PER_MINUTE as int / effective_bpm(tempo_bpm, mode, subdivision_factor)
}

/// The gain at which a tick is played, in thousandths: the volume, half as
/// much again for an accent, and not above full gain.
pub open spec fn gain_permille(volume_percent: u32, accent: bool) -> int {
    let gain: int = if accent {
        volume_percent * 15
    } else {
        volume_percent * 10
    };
    if gain > FULL_GAIN {
        FULL_GAIN as int
    } else {
        gain
    }
}

/// The sound that a tick takes: the chosen one, or the one after it, back
/// at the first after the last, for the alternate sound.
pub open spec fn played_sound(sound_id: u32, alternate: bool) -> int {
    if alternate {
        (sound_id + 1) % (SOUND_COUNT as int)
    } else {
        sound_id as int
    }
}

/// The volume nearest to `volume_percent` that a session accepts.
pub open spec fn clamped_volume(volume_percent: u32) -> u32 {
    if volume_percent > VOLUME_MAX {
        VOLUME_MAX
    } else {
        volume_percent
    }
}

/// The part of a beat of `interval_ms` that has passed `elapsed_ms` after
/// its tick, in thousandths, and not above 1000.
pub open spec fn beat_progress_permille(elapsed_ms: u64, interval_ms: u64) -> int {
    if elapsed_ms >= interval_ms {
        1000
    } else {
        elapsed_ms * 1000 / (interval_ms as int)
    }
}

/// The time left of a beat of `interval_ms`, `elapsed_ms` after its tick.
pub open spec fn ms_to_next_beat(elapsed_ms: u64, interval_ms: u64) -> int {
    if elapsed_ms >= interval_ms {
        0
    } else {
        interval_ms - elapsed_ms
    }
}

pub fn compute_beat_progress_permille(elapsed_ms: u64, interval_ms: u64) -> (progress: u32)
    ensures
        progress == beat_progress_permille(elapsed_ms, interval_ms),
        progress <= 1000,
{
    if elapsed_ms >= interval_ms {
        return 1000;
    }
    let scaled: u128 = elapsed_ms as u128 * 1000;
    assert(scaled / (interval_ms as u128) < 1000) by (nonlinear_arith)
        requires
            scaled == elapsed_ms * 1000,
            elapsed_ms < interval_ms,
    ;
    (scaled / interval_ms as u128) as u32
}

pub fn compute_ms_to_next_beat(elapsed_ms: u64, interval_ms: u64) -> (left: u64)
    ensures
        left == ms_to_next_beat(elapsed_ms, interval_ms),
{
    interval_ms.saturating_sub(elapsed_ms)
}

pub fn compute_beat_interval_ms(tempo_bpm: u32, mode: ModeTag, subdivision_factor: u32) -> (ms: u64)
    ensures
        ms == beat_interval_ms(tempo_bpm, mode, subdivision_factor),
        ms <= MS_PER_MINUTE,
{
    let tempo: u64 = if tempo_bpm == 0 {
        1
    } else {
        tempo_bpm as u64
    };
    let bpm: u64 = if mode != ModeTag::Subdivision {
        tempo
    } else if subdivision_factor == 2 {
        2 * tempo
    } else if subdivision_factor == 3 {
        3 * tempo
    } else if subdivision_factor == 4 {
        4 * tempo
    } else {
        tempo
    };
    proof {
        vstd::arithmetic::div_mod::lemma_div_is_ordered_by_denominator(
            MS_PER_MINUTE as int,
            1,
            bpm as int,
        );
    }
    MS_PER_MINUTE / bpm
}

pub fn compute_gain_permille(volume_percent: u32, accent: bool) -> (gain: u32)
    ensures
        gain == gain_permille(volume_percent, accent),
        gain <= FULL_GAIN,
{
    let scaled: u64 = if accent {
        volume_percent as u64 * 15
    } else {
        volume_percent as u64 * 10
    };
    if scaled > FULL_GAIN as u64 {
        FULL_GAIN
    } else {
        scaled as u32
    }
}

pub fn compute_played_sound(sound_id: u32, alternate: bool) -> (played: u32)
    ensures
        played == played_sound(sound_id, alternate),
        alternate ==> played < SOUND_COUNT,
{
    if alternate {
        ((sound_id as u64 + 1) % (SOUND_COUNT as u64)) as u32
    } else {
        sound_id
    }
}

pub fn clamp_volume(volume_percent: u32) -> (clamped: u32)
    ensures
        clamped == clamped_volume(volume_percent),
        clamped <= VOLUME_MAX,
{
    if volume_percent > VOLUME_MAX {
        VOLUME_MAX
    } else {
        volume_percent
    }
}

/// The effective tempo is the tempo, or 1 where that is 0, times the
/// multiplier of the subdivision mode.
pub proof fn lemma_effective_bpm_is_multiplied(tempo_bpm: u32, mode: ModeTag, subdivision_factor: u32)
    ensures
        mode == ModeTag::Subdivision ==> effective_bpm(tempo_bpm, mode, subdivision_factor) == (if tempo_bpm
            == 0 {
            1
        } else {
            tempo_bpm as int
        }) * multiplier(subdivision_factor),
        mode != ModeTag::Subdivision ==> effective_bpm(tempo_bpm, mode, subdivision_factor) == (if tempo_bpm
            == 0 {
            1
        } else {
            tempo_bpm as int
        }),
        effective_bpm(tempo_bpm, mode, subdivision_factor) >= 1,
{
    let tempo: int = if tempo_bpm == 0 {
        1
    } else {
        tempo_bpm as int
    };
    let times = multiplier(subdivision_factor) as int;
    assert(tempo * times == (if times == 1 {
        tempo
    } else if times == 2 {
        2 * tempo
    } else if times == 3 {
        3 * tempo
    } else {
        4 * tempo
    })) by (nonlinear_arith)
        requires
            1 <= times <= 4,
    ;
}

/// A louder setting never plays softer, an accent never plays softer than
/// no accent, and within the range of the volume the plain gain is the
/// volume itself.
pub proof fn lemma_gain_properties(volume: u32, louder: u32, accent: bool)
    requires
        volume <= louder,
    ensures
        gain_permille(volume, accent) <= gain_permille(louder, accent),
        gain_permille(volume, false) <= gain_permille(volume, true),
        volume <= VOLUME_MAX ==> gain_permille(volume, false) == volume * 10,
{
}

} // verus!
