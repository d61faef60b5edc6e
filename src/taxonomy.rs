//! The category table as mathematical sets of code points.
//!
//! Each category is a predicate on a code point (the scalar value of a
//! `char`, read as `u32`). Leaf categories are fixed ranges or single code
//! points; every other category is the union of the categories beneath it.
//! The executable predicates of this crate are specified against these
//! definitions.
use vstd::prelude::*;

verus! {

// ---- Unicode block "Hebrew" (U+0590 ..= U+05FF) ----

/// Cantillation accents: U+0591 ..= U+05AE.
pub open spec fn hbr_accent(cp: u32) -> bool {
    0x0591 <= cp <= 0x05AE
}

/// Marks: U+05AF, U+05C4, U+05C5.
pub open spec fn hbr_mark(cp: u32) -> bool {
    cp == 0x05AF || cp == 0x05C4 || cp == 0x05C5
}

/// Vowel points: U+05B4 ..= U+05BB and U+05C7.
pub open spec fn hbr_point_vowel(cp: u32) -> bool {
    (0x05B4 <= cp <= 0x05BB) || cp == 0x05C7
}

/// Semi-vowel points (sheva and the hataf points): U+05B0 ..= U+05B3.
pub open spec fn hbr_point_semi_vowel(cp: u32) -> bool {
    0x05B0 <= cp <= 0x05B3
}

/// Reading-sign points: U+05BC ..= U+05BD, U+05BF, U+05C1 ..= U+05C2.
pub open spec fn hbr_point_reading_sign(cp: u32) -> bool {
    (0x05BC <= cp <= 0x05BD) || cp == 0x05BF || (0x05C1 <= cp <= 0x05C2)
}

/// All points: vowels, semi-vowels and reading signs.
pub open spec fn hbr_point(cp: u32) -> bool {
    hbr_point_vowel(cp) || hbr_point_semi_vowel(cp) || hbr_point_reading_sign(cp)
}

/// Punctuation: U+05BE, U+05C0, U+05C3, U+05C6, U+05F3 ..= U+05F4.
pub open spec fn hbr_punctuation(cp: u32) -> bool {
    cp == 0x05BE || cp == 0x05C0 || cp == 0x05C3 || cp == 0x05C6 || (0x05F3 <= cp <= 0x05F4)
}

/// Consonants in their normal (non-final) form.
pub open spec fn hbr_consonant_normal(cp: u32) -> bool {
    (0x05D0 <= cp <= 0x05D9) || (0x05DB <= cp <= 0x05DC) || cp == 0x05DE
        || (0x05E0 <= cp <= 0x05E2) || cp == 0x05E4 || (0x05E6 <= cp <= 0x05EA)
}

/// Final-form consonants: U+05DA, U+05DD, U+05DF, U+05E3, U+05E5.
pub open spec fn hbr_consonant_final(cp: u32) -> bool {
    cp == 0x05DA || cp == 0x05DD || cp == 0x05DF || cp == 0x05E3 || cp == 0x05E5
}

/// All consonants, normal and final.
pub open spec fn hbr_consonant(cp: u32) -> bool {
    hbr_consonant_normal(cp) || hbr_consonant_final(cp)
}

/// The yod triangle: U+05EF.
pub open spec fn hbr_yod_triangle(cp: u32) -> bool {
    cp == 0x05EF
}

/// Yiddish ligatures: U+05F0 ..= U+05F2.
pub open spec fn hbr_ligature_yiddish(cp: u32) -> bool {
    0x05F0 <= cp <= 0x05F2
}

/// The Hebrew block: the union of its seven groups.
pub open spec fn hbr_block(cp: u32) -> bool {
    hbr_accent(cp) || hbr_mark(cp) || hbr_point(cp) || hbr_punctuation(cp) || hbr_consonant(cp)
        || hbr_yod_triangle(cp) || hbr_ligature_yiddish(cp)
}

// ---- Unicode block "Alphabetic Presentation Forms", Hebrew part (U+FB1D ..= U+FB4F) ----

/// Consonants combined with a vowel or another point.
pub open spec fn apf_consonant_with_vowel(cp: u32) -> bool {
    cp == 0xFB1D || (0xFB2A <= cp <= 0xFB36) || (0xFB38 <= cp <= 0xFB3C) || cp == 0xFB3E
        || (0xFB40 <= cp <= 0xFB41) || (0xFB43 <= cp <= 0xFB44) || (0xFB46 <= cp <= 0xFB4E)
}

/// The reading-sign point of the block, the Judeo-Spanish varika: U+FB1E.
pub open spec fn apf_point_reading_sign(cp: u32) -> bool {
    cp == 0xFB1E
}

/// Ligatures: yod yod patah (U+FB1F) and alef lamed (U+FB4F).
pub open spec fn apf_ligature(cp: u32) -> bool {
    cp == 0xFB1F || cp == 0xFB4F
}

/// Alternative forms: the alternative ayin (U+FB20) and plus sign (U+FB29).
pub open spec fn apf_alternative(cp: u32) -> bool {
    cp == 0xFB20 || cp == 0xFB29
}

/// Wide consonants: U+FB21 ..= U+FB28.
pub open spec fn apf_consonant_wide(cp: u32) -> bool {
    0xFB21 <= cp <= 0xFB28
}

/// The Hebrew part of the Alphabetic Presentation Forms block: the union of
/// its five groups.
pub open spec fn apf_block(cp: u32) -> bool {
    apf_consonant_with_vowel(cp) || apf_point_reading_sign(cp) || apf_ligature(cp)
        || apf_alternative(cp) || apf_consonant_wide(cp)
}

// ---- The script ----

/// The Hebrew script: both blocks together.
pub open spec fn script_hbr(cp: u32) -> bool {
    hbr_block(cp) || apf_block(cp)
}

} // verus!
