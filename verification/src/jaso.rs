//! Decomposition of Hangul syllables into jamo component indices, and the
//! flat-table index formulas used by the bitmask fonts.

use vstd::prelude::*;
use crate::FontError;

verus! {

/// Number of initial-consonant glyphs in one row-group block.
pub const CHO_GROUP: u32 = 19;

/// Number of vowel glyphs in one row-group block.
pub const MID_GROUP: u32 = 21;

/// Number of trailing-consonant glyphs in one row-group block.
pub const JONG_GROUP: u32 = 28;

/// Number of row groups of initial-consonant variants in a font resource.
pub const CHO_GROUPS: u32 = 8;

/// Number of row groups of vowel variants in a font resource.
pub const MID_GROUPS: u32 = 4;

/// Number of row groups of trailing-consonant variants in a font resource.
pub const JONG_GROUPS: u32 = 4;

/// The component indices of one decomposed Hangul syllable: initial
/// consonant `cho`, vowel `mid`, trailing consonant `jong` (0 means none).
#[derive(Clone, Copy, Debug, PartialEq, Eq, Structural)]
pub struct Jaso {
    pub cho: u32,
    pub mid: u32,
    pub jong: u32,
}

/// Per-component row-group ("bul") selection: which visual variant row of a
/// font resource to sample for each component. The grouping rule itself is
/// a contextual-shaping convention of the font, decided outside this crate;
/// `None` on a component means no applicable variant.
#[derive(Clone, Copy, Debug)]
pub struct Bul {
    pub cho: Option<u32>,
    pub mid: Option<u32>,
    pub jong: Option<u32>,
}

/// Whether a code point lies in the Hangul syllable block.
pub open spec fn is_syllable(code: u32) -> bool {
    0xAC00 <= code && code <= 0xD7A3
}

/// Component indices within their alphabet sizes.
pub open spec fn jaso_wf(j: Jaso) -> bool {
    &&& j.cho < CHO_GROUP
    &&& j.mid < MID_GROUP
    &&& j.jong < JONG_GROUP
}

/// Each supplied row-group id selects an existing variant row.
pub open spec fn bul_wf(b: Bul) -> bool {
    &&& (b.cho matches Some(g) ==> g < CHO_GROUPS)
    &&& (b.mid matches Some(g) ==> g < MID_GROUPS)
    &&& (b.jong matches Some(g) ==> g < JONG_GROUPS)
}

/// The initial-consonant index of a syllable code point.
pub open spec fn spec_cho(code: u32) -> int {
    (code - 0xAC00) / (MID_GROUP * JONG_GROUP) as int
}

/// The vowel index of a syllable code point.
pub open spec fn spec_mid(code: u32) -> int {
    ((code - 0xAC00) % (MID_GROUP * JONG_GROUP) as int) / JONG_GROUP as int
}

/// The trailing-consonant index of a syllable code point (0 when absent).
pub open spec fn spec_jong(code: u32) -> int {
    (code - 0xAC00) % JONG_GROUP as int
}

/// Decomposes a Hangul syllable code point into its three component
/// indices by the arithmetic of the syllable block; any other code point
/// is unsupported (callers pre-classify).
pub fn build_jaso(code: u32) -> (r: Result<Jaso, FontError>)
    ensures
        is_syllable(code) ==> (r matches Ok(j)
            && j.cho == spec_cho(code)
            && j.mid == spec_mid(code)
            && j.jong == spec_jong(code)
            && jaso_wf(j)),
        !is_syllable(code) ==> r == Err::<Jaso, FontError>(FontError::UnsupportedCharacter),
{
    if 0xAC00 <= code && code <= 0xD7A3 {
        let s = code - 0xAC00;
        let cho = s / 588;
        let mid = (s % 588) / 28;
        let jong = s % 28;
        proof {
            assert(s / 588 < 19 && (s % 588) / 28 < 21 && s % 28 < 28) by (nonlinear_arith)
                requires
                    s <= 0xD7A3 - 0xAC00,
            ;
        }
        Ok(Jaso { cho, mid, jong })
    } else {
        Err(FontError::UnsupportedCharacter)
    }
}

/// Flat-table index of an initial-consonant variant: the row group selects
/// a contiguous block of `CHO_GROUP` glyphs, the jamo index the entry.
pub fn cho_index(jaso: &Jaso, group: u32) -> (idx: usize)
    requires
        jaso.cho < CHO_GROUP,
        group < CHO_GROUPS,
    ensures
        idx == jaso.cho + group * CHO_GROUP,
        idx < CHO_GROUPS * CHO_GROUP,
{
    (jaso.cho + group * 19) as usize
}

/// Flat-table index of a vowel variant.
pub fn mid_index(jaso: &Jaso, group: u32) -> (idx: usize)
    requires
        jaso.mid < MID_GROUP,
        group < MID_GROUPS,
    ensures
        idx == jaso.mid + group * MID_GROUP,
        idx < MID_GROUPS * MID_GROUP,
{
    (jaso.mid + group * 21) as usize
}

/// Flat-table index of a trailing-consonant variant.
pub fn jong_index(jaso: &Jaso, group: u32) -> (idx: usize)
    requires
        jaso.jong < JONG_GROUP,
        group < JONG_GROUPS,
    ensures
        idx == jaso.jong + group * JONG_GROUP,
        idx < JONG_GROUPS * JONG_GROUP,
{
    (jaso.jong + group * 28) as usize
}

/// Law: decomposing any Hangul syllable and then addressing a component
/// table lands exactly on `componentIndex + rowGroup * groupSize` for the
/// group sizes 19, 21 and 28, and stays inside the band that the row group
/// selects, for every in-range row-group assignment.
pub proof fn lemma_decompose_index_formula(code: u32, gc: u32, gm: u32, gj: u32)
    requires
        is_syllable(code),
        gc < CHO_GROUPS,
        gm < MID_GROUPS,
        gj < JONG_GROUPS,
    ensures
        spec_cho(code) + gc * CHO_GROUP < CHO_GROUPS * CHO_GROUP,
        spec_mid(code) + gm * MID_GROUP < MID_GROUPS * MID_GROUP,
        spec_jong(code) + gj * JONG_GROUP < JONG_GROUPS * JONG_GROUP,
        0 <= spec_cho(code) + gc * CHO_GROUP,
        0 <= spec_mid(code) + gm * MID_GROUP,
        0 <= spec_jong(code) + gj * JONG_GROUP,
{
    let s = (code - 0xAC00) as int;
    assert(s / 588 < 19 && 0 <= s / 588 && (s % 588) / 28 < 21 && 0 <= (s % 588) / 28
        && s % 28 < 28 && 0 <= s % 28) by (nonlinear_arith)
        requires
            0 <= s <= 0xD7A3 - 0xAC00,
    ;
}

} // verus!
