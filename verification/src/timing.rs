//! Element and gap durations derived from a words-per-minute setting.
//!
//! One dot lasts `1200 / wpm` milliseconds (the PARIS standard); every
//! other duration is a fixed multiple of the dot.  Farnsworth timing
//! stretches only the inter-character and inter-word gaps, never the
//! elements themselves, and never below the standard spacing.

use vstd::prelude::*;

verus! {

/// All timing derived from a single dot length, in milliseconds.
#[derive(Debug, Clone, Copy, PartialEq, Eq, Structural)]
pub struct Timing {
    /// One unit: a dit, and the gap between elements of one character.
    pub dot: u64,
    /// Three units.
    pub dash: u64,
    /// One unit, between dits and dahs of the same character.
    pub elem_gap: u64,
    /// Three units between characters, or more under Farnsworth timing.
    pub char_gap: u64,
    /// Seven units between words, or more under Farnsworth timing.
    pub word_gap: u64,
}

/// Dot length in milliseconds for a speed, clamped to at least 1 WPM.
pub open spec fn spec_dot_ms(wpm: u8) -> u64 {
    1200u64 / (if wpm == 0 { 1u8 } else { wpm }) as u64
}

/// The standard (non-Farnsworth) timing for a speed.
pub open spec fn spec_from_wpm(wpm: u8) -> Timing {
    let d = spec_dot_ms(wpm);
    Timing {
        dot: d,
        dash: (3 * d) as u64,
        elem_gap: d,
        char_gap: (3 * d) as u64,
        word_gap: (7 * d) as u64,
    }
}

/// Farnsworth timing: element durations from `char_wpm`, spacing from
/// `eff_wpm`, but the spacing never shrinks below the standard values.
pub open spec fn spec_farnsworth(char_wpm: u8, eff_wpm: u8) -> Timing {
    let base = spec_from_wpm(char_wpm);
    let e = spec_dot_ms(eff_wpm);
    let d = base.dot;
    Timing {
        char_gap: (if 3 * e > 3 * d { 3 * e } else { 3 * d }) as u64,
        word_gap: (if 7 * e > 7 * d { 7 * e } else { 7 * d }) as u64,
        ..base
    }
}

impl Timing {
    /// A timing is well formed when every duration keeps its ratio to the
    /// dot, with the two spacing gaps possibly Farnsworth-stretched.
    pub open spec fn wf(self) -> bool {
        &&& 1 <= self.dot <= 1200
        &&& self.dash == 3 * self.dot
        &&& self.elem_gap == self.dot
        &&& 3 * self.dot <= self.char_gap <= 3600
        &&& 7 * self.dot <= self.word_gap <= 8400
        &&& self.char_gap < self.word_gap
    }

    /// PARIS standard: one dot lasts 1200 ms divided by the speed.
    pub fn from_wpm(wpm: u8) -> (t: Timing)
        ensures
            t == spec_from_wpm(wpm),
            t.wf(),
    {
        let w: u64 = if wpm == 0 { 1 } else { wpm as u64 };
        let dot: u64 = 1200 / w;
        proof {
            assert(1 <= dot <= 1200) by (nonlinear_arith)
                requires
                    dot == 1200u64 / w,
                    1 <= w <= 255,
            ;
        }
        Timing { dot, dash: 3 * dot, elem_gap: dot, char_gap: 3 * dot, word_gap: 7 * dot }
    }

    /// Characters at `char_wpm`, spacing as if sent at `eff_wpm`, never
    /// shorter than the standard spacing for `char_wpm`.
    pub fn farnsworth(char_wpm: u8, eff_wpm: u8) -> (t: Timing)
        ensures
            t == spec_farnsworth(char_wpm, eff_wpm),
            t.wf(),
    {
        let base = Timing::from_wpm(char_wpm);
        let ew: u64 = if eff_wpm == 0 { 1 } else { eff_wpm as u64 };
        let eff_dot: u64 = 1200 / ew;
        proof {
            assert(1 <= eff_dot <= 1200) by (nonlinear_arith)
                requires
                    eff_dot == 1200u64 / ew,
                    1 <= ew <= 255,
            ;
        }
        let d = base.dot;
        let char_gap: u64 = if 3 * eff_dot > 3 * d { 3 * eff_dot } else { 3 * d };
        let word_gap: u64 = if 7 * eff_dot > 7 * d { 7 * eff_dot } else { 7 * d };
        Timing { char_gap, word_gap, ..base }
    }
}

/// Law: for every speed the standard timing keeps the PARIS ratios —
/// the dash, the inter-character gap and the word gap are exactly three,
/// three and seven dots.
pub proof fn lemma_standard_ratios(wpm: u8)
    ensures
        spec_from_wpm(wpm).dash == 3 * spec_from_wpm(wpm).dot,
        spec_from_wpm(wpm).char_gap == 3 * spec_from_wpm(wpm).dot,
        spec_from_wpm(wpm).word_gap == 7 * spec_from_wpm(wpm).dot,
        spec_from_wpm(wpm).elem_gap == spec_from_wpm(wpm).dot,
{
}

/// Law: Farnsworth timing never shortens the spacing below the standard
/// timing of the character speed, and never touches the element durations.
pub proof fn lemma_farnsworth_stretches(char_wpm: u8, eff_wpm: u8)
    ensures
        spec_farnsworth(char_wpm, eff_wpm).char_gap >= spec_from_wpm(char_wpm).char_gap,
        spec_farnsworth(char_wpm, eff_wpm).word_gap >= spec_from_wpm(char_wpm).word_gap,
        spec_farnsworth(char_wpm, eff_wpm).dot == spec_from_wpm(char_wpm).dot,
        spec_farnsworth(char_wpm, eff_wpm).dash == spec_from_wpm(char_wpm).dash,
        spec_farnsworth(char_wpm, eff_wpm).elem_gap == spec_from_wpm(char_wpm).elem_gap,
{
}

} // verus!
