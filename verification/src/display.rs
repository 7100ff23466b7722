use vstd::prelude::*;
use vstd::string::StringExecFns;
use crate::cache::UICache;
use crate::mode::ModeTag;
use crate::state::AtomicState;
use crate::timing::compute_beat_interval_ms;

verus! {

/// The number of characters in the strip of the tick animation.
pub const ANIMATION_WIDTH: usize = 70;

/// The distance between two beat markers of the strip.
pub const MARKER_SPACING: usize = 17;

/// For how long after a tick the strip shows the tick with emphasis, in
/// milliseconds.
pub const EMPHASIS_MS: u64 = 150;

pub const NANOS_PER_MS: u64 = 1_000_000;

/// The width of the tempo meter and of the volume meter.
pub const TEMPO_METER_WIDTH: usize = 20;

pub const VOLUME_METER_WIDTH: usize = 15;

/// Calls `String::push`.
///
/// Trusted: `push` appends the character to the end of the string and
/// changes nothing else of it.
#[verifier::external_body]
fn push_char(text: &mut String, c: char)
    ensures
        final(text)@ == old(text)@.push(c),
{
    text.push(c)
}

/// A bar of `width` characters, the first `filled_width` of them
/// `filled_char` and the others `empty_char`.
pub open spec fn progress_bar(
    filled_width: nat,
    width: nat,
    filled_char: char,
    empty_char: char,
) -> Seq<char> {
    Seq::new(
        width,
        |i: int|
            if i < filled_width {
                filled_char
            } else {
                empty_char
            },
    )
}

/// How many of `width` characters stand for `value` on a scale from `low`
/// to `high`, rounded down. A value below the scale fills nothing, one
/// above it fills all.
pub open spec fn meter_fill(value: u32, low: u32, high: u32, width: nat) -> int {
    if value <= low {
        0
    } else if value >= high {
        width as int
    } else {
        (value - low) * width / (high - low)
    }
}

pub fn create_progress_bar(
    filled_width: usize,
    width: usize,
    filled_char: char,
    empty_char: char,
) -> (bar: String)
    ensures
        bar@ == progress_bar(filled_width as nat, width as nat, filled_char, empty_char),
{
    let mut bar = String::new();
    let mut i: usize = 0;
    while i < width
        invariant
            i <= width,
            bar@ == progress_bar(filled_width as nat, width as nat, filled_char, empty_char).subrange(
                0,
                i as int,
            ),
        decreases width - i,
    {
        if i < filled_width {
            push_char(&mut bar, filled_char);
        } else {
            push_char(&mut bar, empty_char);
        }
        i = i + 1;
    }
    bar
}

pub fn compute_meter_fill(value: u32, low: u32, high: u32, width: usize) -> (fill: usize)
    ensures
        fill == meter_fill(value, low, high, width as nat),
        fill <= width,
{
    if value <= low {
        return 0;
    }
    if value >= high {
        return width;
    }
    let above: u128 = (value - low) as u128;
    let span: u128 = (high - low) as u128;
    assert(above * (width as u128) <= 0xffff_ffff * 0xffff_ffff_ffff_ffff) by (nonlinear_arith)
        requires
            above <= 0xffff_ffff,
            width <= 0xffff_ffff_ffff_ffff,
    ;
    let scaled: u128 = above * (width as u128);
    assert(scaled / span <= width) by (nonlinear_arith)
        requires
            scaled == above * (width as u128),
            above < span,
    ;
    (scaled / span) as usize
}

/// The place of the tick on the strip, `elapsed_ms` after the last tick of
/// a beat that lasts `beat_ms`: it moves from the first place to the last
/// as the beat goes by.
pub open spec fn tick_position(elapsed_ms: u64, beat_ms: u64) -> int {
    if beat_ms == 0 {
        0
    } else if elapsed_ms >= beat_ms {
        ANIMATION_WIDTH - 1
    } else {
        elapsed_ms * (ANIMATION_WIDTH - 1) / (beat_ms as int)
    }
}

/// How far the emphasis of a tick reaches, `elapsed_ms` after the tick: 4 at
/// the tick itself, fading to 0.
pub open spec fn emphasis_reach(elapsed_ms: u64) -> int {
    (EMPHASIS_MS - elapsed_ms) * 4 / (EMPHASIS_MS as int)
}

/// The sign that marks the tick on the strip; it changes with every tick.
pub open spec fn pulse_symbol(tick_count: u32) -> char {
    if tick_count % 4 == 0 {
        '♪'
    } else if tick_count % 4 == 1 {
        '♫'
    } else if tick_count % 4 == 2 {
        '♬'
    } else {
        '♭'
    }
}

/// The sign of the beat markers; it changes with every measure of four
/// ticks.
pub open spec fn marker_symbol(tick_count: u32) -> char {
    if (tick_count / 4) % 2 == 0 {
        '|'
    } else {
        ':'
    }
}

/// Whether the emphasis of the tick shows a ring at `position`: one or two
/// places beside the tick, as far as the emphasis reaches, and only where
/// the places on both sides of the tick are on the strip.
pub open spec fn is_ring(position: int, tick: int, reach: int) -> bool {
    ring_at(position, tick, reach, 1) || ring_at(position, tick, reach, 2)
}

/// Whether a ring of the emphasis lies at `position`, `distance` places
/// from the tick.
pub open spec fn ring_at(position: int, tick: int, reach: int, distance: int) -> bool {
    &&& distance <= reach
    &&& tick >= distance
    &&& tick + distance < ANIMATION_WIDTH
    &&& (position == tick - distance || position == tick + distance)
}

/// The character at `position` of the strip.
pub open spec fn strip_char(position: int, tick_count: u32, elapsed_ms: u64, beat_ms: u64) -> char {
    let tick = tick_position(elapsed_ms, beat_ms);
    if elapsed_ms < EMPHASIS_MS && position == tick {
        '*'
    } else if elapsed_ms < EMPHASIS_MS && is_ring(position, tick, emphasis_reach(elapsed_ms)) {
        'o'
    } else if position == tick {
        pulse_symbol(tick_count)
    } else if position % (MARKER_SPACING as int) == 0 && position < 4 * MARKER_SPACING {
        marker_symbol(tick_count)
    } else {
        '-'
    }
}

/// The animation of a running metronome: a sign and the strip.
pub open spec fn running_animation(tick_count: u32, elapsed_ms: u64, beat_ms: u64) -> Seq<char> {
    "🎼 "@ + Seq::new(
        ANIMATION_WIDTH as nat,
        |position: int| strip_char(position, tick_count, elapsed_ms, beat_ms),
    )
}

/// The animation of a stopped metronome: a sign and a line.
pub open spec fn idle_animation() -> Seq<char> {
    "⏸️  "@ + Seq::new(ANIMATION_WIDTH as nat, |position: int| '=')
}

/// The animation that `state` shows at `now_nanos`.
pub open spec fn tick_animation(state: AtomicState, now_nanos: u64) -> Seq<char> {
    if !state.is_running {
        idle_animation()
    } else {
        running_animation(
            state.tick_count,
            state.elapsed_nanos(now_nanos) / NANOS_PER_MS,
            crate::timing::beat_interval_ms(state.bpm, ModeTag::Standard, 1) as u64,
        )
    }
}

fn compute_tick_position(elapsed_ms: u64, beat_ms: u64) -> (position: usize)
    requires
        beat_ms <= crate::timing::MS_PER_MINUTE,
    ensures
        position == tick_position(elapsed_ms, beat_ms),
        position < ANIMATION_WIDTH,
{
    if beat_ms == 0 {
        0
    } else if elapsed_ms >= beat_ms {
        ANIMATION_WIDTH - 1
    } else {
        let scaled: u64 = elapsed_ms * 69;
        assert(scaled / beat_ms < 69) by (nonlinear_arith)
            requires
                scaled == elapsed_ms * 69,
                elapsed_ms < beat_ms,
                beat_ms > 0,
        ;
        (scaled / beat_ms) as usize
    }
}

fn compute_is_ring(position: usize, tick: usize, reach: u64) -> (ring: bool)
    requires
        position < ANIMATION_WIDTH,
        tick < ANIMATION_WIDTH,
    ensures
        ring == is_ring(position as int, tick as int, reach as int),
{
    let first = 1 <= reach && tick >= 1 && tick + 1 < ANIMATION_WIDTH && (position + 1 == tick
        || position == tick + 1);
    let second = 2 <= reach && tick >= 2 && tick + 2 < ANIMATION_WIDTH && (position + 2 == tick
        || position == tick + 2);
    first || second
}

fn compute_strip_char(position: usize, tick_count: u32, elapsed_ms: u64, beat_ms: u64) -> (c: char)
    requires
        position < ANIMATION_WIDTH,
        beat_ms <= crate::timing::MS_PER_MINUTE,
    ensures
        c == strip_char(position as int, tick_count, elapsed_ms, beat_ms),
{
    let tick: usize = compute_tick_position(elapsed_ms, beat_ms);
    if elapsed_ms < EMPHASIS_MS {
        if position == tick {
            return '*';
        }
        let reach: u64 = (EMPHASIS_MS - elapsed_ms) * 4 / EMPHASIS_MS;
        if compute_is_ring(position, tick, reach) {
            return 'o';
        }
    }
    if position == tick {
        let phase: u32 = tick_count % 4;
        if phase == 0 {
            '♪'
        } else if phase == 1 {
            '♫'
        } else if phase == 2 {
            '♬'
        } else {
            '♭'
        }
    } else if position % MARKER_SPACING == 0 && position < 4 * MARKER_SPACING {
        if (tick_count / 4) % 2 == 0 {
            '|'
        } else {
            ':'
        }
    } else {
        '-'
    }
}

/// The animation that `state` shows at `now_nanos`, the time in nanoseconds
/// since the epoch.
pub fn generate_enhanced_tick_animation(state: &AtomicState, now_nanos: u64) -> (animation: String)
    ensures
        animation@ == tick_animation(*state, now_nanos),
{
    if !state.is_running {
        let mut animation = String::from_str("⏸️  ");
        let ghost sign = animation@;
        let mut i: usize = 0;
        while i < ANIMATION_WIDTH
            invariant
                i <= ANIMATION_WIDTH,
                sign == "⏸️  "@,
                animation@ == sign + Seq::new(i as nat, |position: int| '='),
            decreases ANIMATION_WIDTH - i,
        {
            push_char(&mut animation, '=');
            i = i + 1;
        }
        return animation;
    }
    let elapsed_ms: u64 = state.get_last_tick_elapsed(now_nanos) / NANOS_PER_MS;
    let beat_ms: u64 = compute_beat_interval_ms(state.bpm, ModeTag::Standard, 1);
    let tick_count: u32 = state.tick_count;
    let mut animation = String::from_str("🎼 ");
    let ghost sign = animation@;
    let mut i: usize = 0;
    while i < ANIMATION_WIDTH
        invariant
            i <= ANIMATION_WIDTH,
            beat_ms <= crate::timing::MS_PER_MINUTE,
            sign == "🎼 "@,
            animation@ == sign + Seq::new(
                i as nat,
                |position: int| strip_char(position, tick_count, elapsed_ms, beat_ms),
            ),
        decreases ANIMATION_WIDTH - i,
    {
        let c = compute_strip_char(i, tick_count, elapsed_ms, beat_ms);
        push_char(&mut animation, c);
        i = i + 1;
    }
    animation
}

/// The band that a tempo falls in, by which the console colours it.
#[derive(Clone, Copy, Debug, PartialEq, Eq, Structural)]
pub enum TempoZone {
    /// Up to 100.
    Calm,
    /// Above 100, up to 150.
    Brisk,
    /// Above 150.
    Fast,
}

pub open spec fn spec_tempo_zone(bpm: u32) -> TempoZone {
    if bpm > 150 {
        TempoZone::Fast
    } else if bpm > 100 {
        TempoZone::Brisk
    } else {
        TempoZone::Calm
    }
}

pub fn tempo_zone(bpm: u32) -> (zone: TempoZone)
    ensures
        zone == spec_tempo_zone(bpm),
{
    if bpm > 150 {
        TempoZone::Fast
    } else if bpm > 100 {
        TempoZone::Brisk
    } else {
        TempoZone::Calm
    }
}

/// The beat of the measure that the tick with the given count falls on,
/// from 1 to 4.
pub fn beat_of_measure(tick_count: u32) -> (beat: u32)
    ensures
        beat == tick_count % 4 + 1,
        1 <= beat <= 4,
{
    tick_count % 4 + 1
}

/// The parts of the console screen that are to be drawn again.
#[derive(Clone, Copy, Debug, PartialEq, Eq, Structural)]
pub struct Redraw {
    /// The title, and with it the panel of controls and the list of sounds.
    pub frame: bool,
    pub animation: bool,
    pub bpm: bool,
    pub sound: bool,
    pub status: bool,
    pub random: bool,
    pub volume: bool,
}

/// What is to be drawn again when `state` with `animation` is shown after
/// `cache`: all of it the first time, and after that each part of which
/// something has changed.
pub open spec fn redraw_needed(cache: UICache, state: AtomicState, animation: Seq<char>) -> Redraw {
    Redraw {
        frame: cache.first_render,
        animation: animation != cache.animation_buffer@,
        bpm: cache.first_render || state.bpm != cache.last_bpm,
        sound: cache.first_render || state.sound() != cache.last_sound,
        status: cache.first_render || state.is_running != cache.last_status || state.tick_count
            != cache.last_tick_count,
        random: cache.first_render || state.random_mode != cache.last_random_mode
            || state.remaining_ticks != cache.last_remaining_ticks,
        volume: cache.first_render || state.volume != cache.last_volume,
    }
}

/// Whether `cache` holds what is on the screen once `state` with
/// `animation` has been drawn.
pub open spec fn cache_shows(cache: UICache, state: AtomicState, animation: Seq<char>) -> bool {
    &&& cache.last_bpm == state.bpm
    &&& cache.last_sound == state.sound()
    &&& cache.last_status == state.is_running
    &&& cache.last_random_mode == state.random_mode
    &&& cache.last_remaining_ticks == state.remaining_ticks
    &&& cache.last_tick_count == state.tick_count
    &&& cache.last_volume == state.volume
    &&& !cache.first_render
    &&& cache.animation_buffer@ == animation
}

/// Says what of the screen is to be drawn again to show `state` with
/// `animation`, and notes in `cache` that it is shown.
pub fn plan_redraw(cache: &mut UICache, state: &AtomicState, animation: String) -> (redraw: Redraw)
    ensures
        redraw == redraw_needed(*old(cache), *state, animation@),
        cache_shows(*final(cache), *state, animation@),
        final(cache).last_random_count == old(cache).last_random_count,
        final(cache).last_animation_frame == old(cache).last_animation_frame,
{
    let first = cache.first_render;
    let sound = state.get_sound_type();
    let redraw = Redraw {
        frame: first,
        animation: animation != cache.animation_buffer,
        bpm: first || state.bpm != cache.last_bpm,
        sound: first || sound != cache.last_sound,
        status: first || state.is_running != cache.last_status || state.tick_count
            != cache.last_tick_count,
        random: first || state.random_mode != cache.last_random_mode || state.remaining_ticks
            != cache.last_remaining_ticks,
        volume: first || state.volume != cache.last_volume,
    };
    cache.first_render = false;
    cache.animation_buffer = animation;
    cache.last_bpm = state.bpm;
    cache.last_sound = sound;
    cache.last_status = state.is_running;
    cache.last_tick_count = state.tick_count;
    cache.last_random_mode = state.random_mode;
    cache.last_remaining_ticks = state.remaining_ticks;
    cache.last_volume = state.volume;
    redraw
}

/// Showing the same state twice in a row draws nothing the second time.
pub proof fn lemma_nothing_to_redraw(cache: UICache, state: AtomicState, animation: Seq<char>)
    requires
        cache_shows(cache, state, animation),
    ensures
        redraw_needed(cache, state, animation) == (Redraw {
            frame: false,
            animation: false,
            bpm: false,
            sound: false,
            status: false,
            random: false,
            volume: false,
        }),
{
}

} // verus!
