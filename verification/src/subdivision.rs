use vstd::prelude::*;

verus! {

pub const FACTOR_MIN: u32 = 1;

pub const FACTOR_MAX: u32 = 4;

/// The subdivision mode: each beat is split into `subdivision_factor` ticks
/// (1 for quarter notes, 2 for eighths, 3 for triplets, 4 for sixteenths),
/// accented as `accent_pattern` says.
#[derive(Debug)]
pub struct SubdivisionState {
    pub subdivision_factor: u32,
    pub accent_pattern: Vec<bool>,
}

/// What a `SubdivisionState` holds, as mathematical values.
pub struct SubdivisionView {
    pub subdivision_factor: u32,
    pub accent_pattern: Seq<bool>,
}

impl View for SubdivisionState {
    type V = SubdivisionView;

    open spec fn view(&self) -> SubdivisionView {
        SubdivisionView {
            subdivision_factor: self.subdivision_factor,
            accent_pattern: self.accent_pattern@,
        }
    }
}

/// The factor nearest to `factor` that the mode accepts.
pub open spec fn clamped_factor(factor: u32) -> u32 {
    if factor < FACTOR_MIN {
        FACTOR_MIN
    } else if factor > FACTOR_MAX {
        FACTOR_MAX
    } else {
        factor
    }
}

/// A pattern of the length `factor` made from `pattern`. One that has that
/// length already is kept. Another is cut or filled up to it: the first
/// tick is accented, the other ticks that `pattern` has keep their accents,
/// and those that it lacks have none.
pub open spec fn fitted_pattern(pattern: Seq<bool>, factor: u32) -> Seq<bool> {
    if pattern.len() == factor {
        pattern
    } else {
        Seq::new(factor as nat, |i: int| i == 0 || (i < pattern.len() && pattern[i]))
    }
}

/// By how much the mode multiplies the tempo: the factor, or 1 for a factor
/// that is none of 1 to 4.
pub open spec fn multiplier(factor: u32) -> u32 {
    if FACTOR_MIN <= factor <= FACTOR_MAX {
        factor
    } else {
        1
    }
}

impl SubdivisionView {
    pub open spec fn wf(self) -> bool {
        &&& FACTOR_MIN <= self.subdivision_factor <= FACTOR_MAX
        &&& self.accent_pattern.len() == self.subdivision_factor
    }

    /// The mode with the given factor, clamped, and the given pattern,
    /// fitted to it.
    pub open spec fn with_settings(factor: u32, pattern: Seq<bool>) -> SubdivisionView {
        SubdivisionView {
            subdivision_factor: clamped_factor(factor),
            accent_pattern: fitted_pattern(pattern, clamped_factor(factor)),
        }
    }

    /// Whether the tick with the given running number is accented. The
    /// pattern repeats; an empty pattern accents nothing.
    pub open spec fn accent_at(self, tick_index: u32) -> bool {
        self.accent_pattern.len() > 0 && self.accent_pattern[tick_index as int
            % self.accent_pattern.len() as int]
    }
}

/// A copy of an accent pattern.
pub fn copy_pattern(pattern: &Vec<bool>) -> (copy: Vec<bool>)
    ensures
        copy@ == pattern@,
{
    let mut copy: Vec<bool> = Vec::new();
    let mut i: usize = 0;
    while i < pattern.len()
        invariant
            i <= pattern.len(),
            copy@ == pattern@.subrange(0, i as int),
        decreases pattern.len() - i,
    {
        copy.push(pattern[i]);
        i = i + 1;
    }
    copy
}

/// Cuts or fills `pattern` to the length `factor`.
pub fn fit_pattern(pattern: Vec<bool>, factor: u32) -> (fitted: Vec<bool>)
    ensures
        fitted@ == fitted_pattern(pattern@, factor),
        fitted@.len() == factor,
{
    let length: usize = factor as usize;
    if pattern.len() == length {
        return pattern;
    }
    let mut fitted: Vec<bool> = Vec::new();
    let mut i: usize = 0;
    while i < length
        invariant
            i <= length,
            length == factor,
            pattern@.len() != factor,
            fitted@ == fitted_pattern(pattern@, factor).subrange(0, i as int),
        decreases length - i,
    {
        let accent = i == 0 || (i < pattern.len() && pattern[i]);
        fitted.push(accent);
        i = i + 1;
    }
    fitted
}

impl Clone for SubdivisionState {
    fn clone(&self) -> (copy: SubdivisionState)
        ensures
            copy@ == self@,
    {
        SubdivisionState {
            subdivision_factor: self.subdivision_factor,
            accent_pattern: copy_pattern(&self.accent_pattern),
        }
    }
}

impl SubdivisionState {
    pub fn new(factor: u32, pattern: Vec<bool>) -> (state: SubdivisionState)
        ensures
            state@ == SubdivisionView::with_settings(factor, pattern@),
            state@.wf(),
    {
        let clamped: u32 = if factor < FACTOR_MIN {
            FACTOR_MIN
        } else if factor > FACTOR_MAX {
            FACTOR_MAX
        } else {
            factor
        };
        SubdivisionState { subdivision_factor: clamped, accent_pattern: fit_pattern(pattern, clamped) }
    }

    /// Quarter notes, with the beat accented.
    pub fn quarter_notes() -> (state: SubdivisionState)
        ensures
            state@.subdivision_factor == 1,
            state@.accent_pattern == seq![true],
            state@.wf(),
    {
        let mut pattern: Vec<bool> = Vec::new();
        pattern.push(true);
        SubdivisionState { subdivision_factor: 1, accent_pattern: pattern }
    }

    pub fn set(&mut self, factor: u32, pattern: Vec<bool>)
        ensures
            final(self)@ == SubdivisionView::with_settings(factor, pattern@),
            final(self)@.wf(),
    {
        *self = SubdivisionState::new(factor, pattern);
    }

    /// Changes the factor and keeps the pattern, fitted to the new factor.
    pub fn set_factor(&mut self, factor: u32)
        ensures
            final(self)@ == SubdivisionView::with_settings(factor, old(self)@.accent_pattern),
            final(self)@.wf(),
    {
        let pattern = copy_pattern(&self.accent_pattern);
        *self = SubdivisionState::new(factor, pattern);
    }

    /// Switches the accent of the tick at `index` of the pattern; an index
    /// past the pattern changes nothing.
    pub fn toggle_accent(&mut self, index: usize)
        ensures
            index < old(self)@.accent_pattern.len() ==> final(self)@ == (SubdivisionView {
                accent_pattern: old(self)@.accent_pattern.update(
                    index as int,
                    !old(self)@.accent_pattern[index as int],
                ),
                ..old(self)@
            }),
            index >= old(self)@.accent_pattern.len() ==> final(self)@ == old(self)@,
            old(self)@.wf() ==> final(self)@.wf(),
    {
        if index < self.accent_pattern.len() {
            let accent = self.accent_pattern[index];
            self.accent_pattern.set(index, !accent);
        }
    }

    pub fn multiplier(&self) -> (m: u32)
        ensures
            m == multiplier(self@.subdivision_factor),
            1 <= m <= 4,
    {
        if FACTOR_MIN <= self.subdivision_factor && self.subdivision_factor <= FACTOR_MAX {
            self.subdivision_factor
        } else {
            1
        }
    }

    pub fn accent(&self, tick_index: u32) -> (accent: bool)
        ensures
            accent == self@.accent_at(tick_index),
    {
        if self.accent_pattern.len() == 0 {
            false
        } else {
            self.accent_pattern[tick_index as usize % self.accent_pattern.len()]
        }
    }
}

/// A pattern that changes its length has the new length, accents its first
/// tick, keeps the accents of the other ticks it had, and accents none of
/// the ticks it gains.
pub proof fn lemma_resized_pattern(pattern: Seq<bool>, factor: u32)
    requires
        FACTOR_MIN <= factor <= FACTOR_MAX,
        pattern.len() != factor,
    ensures
        fitted_pattern(pattern, factor).len() == factor,
        fitted_pattern(pattern, factor)[0],
        forall|i: int|
            1 <= i < factor && i < pattern.len() ==> fitted_pattern(pattern, factor)[i]
                == pattern[i],
        forall|i: int|
            1 <= i < factor && i >= pattern.len() ==> !fitted_pattern(pattern, factor)[i],
{
}

} // verus!
