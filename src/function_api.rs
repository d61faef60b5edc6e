//! The same predicates written as range tests, with a different grouping of
//! the presentation forms.
//!
//! Here every consonant form of the presentation forms counts as a consonant
//! ([`is_apf_consonant`] covers the alternative, wide and vowelled forms), and
//! the two ligatures of that block are told apart: [`is_apf_ligature_yiddisch`]
//! is yod yod patah alone and [`is_apf_ligature`] is alef lamed alone. The
//! blocks, the script and every category of the Hebrew block are the same
//! sets as in [`crate::collections_api`].
use vstd::prelude::*;
use crate::taxonomy::{
    apf_alternative, apf_block, apf_consonant_wide, apf_consonant_with_vowel,
    apf_point_reading_sign, hbr_accent, hbr_block, hbr_consonant, hbr_consonant_final,
    hbr_consonant_normal, hbr_ligature_yiddish, hbr_mark, hbr_point, hbr_point_reading_sign,
    hbr_point_semi_vowel, hbr_point_vowel, hbr_punctuation, hbr_yod_triangle, script_hbr,
};

verus! {

// ---- the script ----

/// Checks whether `c` belongs to the Hebrew script: either Hebrew block.
pub fn is_script_hbr(c: char) -> (r: bool)
    ensures
        r == script_hbr(c as u32),
{
    is_hbr_block(c) || is_apf_block(c)
}

/// Checks whether `c` is a point of the Hebrew script: a point of the Hebrew
/// block or the Judeo-Spanish varika.
pub fn is_script_hbr_point(c: char) -> (r: bool)
    ensures
        r == (hbr_point(c as u32) || apf_point_reading_sign(c as u32)),
{
    is_hbr_point(c) || is_apf_point_reading_sign(c)
}

/// Checks whether `c` is a consonant of the Hebrew script: a consonant of the
/// Hebrew block or any consonant form of the presentation forms (alternative,
/// wide, or combined with a vowel).
pub fn is_script_hbr_consonant(c: char) -> (r: bool)
    ensures
        r == (hbr_consonant(c as u32) || apf_alternative(c as u32) || apf_consonant_wide(c as u32)
            || apf_consonant_with_vowel(c as u32)),
{
    is_hbr_consonant(c) || is_apf_consonant(c)
}

/// Checks whether `c` is a Yiddish ligature of the Hebrew script: one of the
/// three of the Hebrew block or yod yod patah (U+FB1F).
pub fn is_script_hbr_ligature_yiddisch(c: char) -> (r: bool)
    ensures
        r == (hbr_ligature_yiddish(c as u32) || c as u32 == 0xFB1F),
{
    is_hbr_ligature_yiddish(c) || is_apf_ligature_yiddisch(c)
}

// ---- the Hebrew block ----

/// Checks whether `c` belongs to the Unicode block "Hebrew": an accent, a mark,
/// a point, a punctuation, a consonant, the yod triangle or a Yiddish ligature.
pub fn is_hbr_block(c: char) -> (r: bool)
    ensures
        r == hbr_block(c as u32),
{
    is_hbr_accent(c)
        || is_hbr_mark(c)
        || is_hbr_point(c)
        || is_hbr_punctuation(c)
        || is_hbr_consonant(c)
        || is_hbr_yod_triangle(c)
        || is_hbr_ligature_yiddish(c)
}

/// Checks whether `c` is a cantillation accent (U+0591 ..= U+05AE).
pub fn is_hbr_accent(c: char) -> (r: bool)
    ensures
        r == hbr_accent(c as u32),
{
    ('\u{0591}' <= c && c <= '\u{05AE}')
}

/// Checks whether `c` is a mark (U+05AF, U+05C4, U+05C5).
pub fn is_hbr_mark(c: char) -> (r: bool)
    ensures
        r == hbr_mark(c as u32),
{
    c == '\u{05AF}' || c == '\u{05C4}' || c == '\u{05C5}'
}

/// Checks whether `c` is a point: a vowel, a semi-vowel or a reading sign.
pub fn is_hbr_point(c: char) -> (r: bool)
    ensures
        r == hbr_point(c as u32),
{
    is_hbr_point_vowel(c) || is_hbr_point_semi_vowel(c) || is_hbr_point_reading_sign(c)
}

/// Checks whether `c` is a vowel point (U+05B4 ..= U+05BB, U+05C7).
pub fn is_hbr_point_vowel(c: char) -> (r: bool)
    ensures
        r == hbr_point_vowel(c as u32),
{
    ('\u{05B4}' <= c && c <= '\u{05BB}') || c == '\u{05C7}'
}

/// Checks whether `c` is a semi-vowel point (U+05B0 ..= U+05B3).
pub fn is_hbr_point_semi_vowel(c: char) -> (r: bool)
    ensures
        r == hbr_point_semi_vowel(c as u32),
{
    ('\u{05B0}' <= c && c <= '\u{05B3}')
}

/// Checks whether `c` is a reading-sign point (U+05BC ..= U+05BD, U+05BF,
/// U+05C1 ..= U+05C2).
pub fn is_hbr_point_reading_sign(c: char) -> (r: bool)
    ensures
        r == hbr_point_reading_sign(c as u32),
{
    ('\u{05BC}' <= c && c <= '\u{05BD}') || c == '\u{05BF}' || ('\u{05C1}' <= c && c <= '\u{05C2}')
}

/// Checks whether `c` is a punctuation (U+05BE, U+05C0, U+05C3, U+05C6,
/// U+05F3 ..= U+05F4).
pub fn is_hbr_punctuation(c: char) -> (r: bool)
    ensures
        r == hbr_punctuation(c as u32),
{
    c == '\u{05BE}'
        || c == '\u{05C0}'
        || c == '\u{05C3}'
        || c == '\u{05C6}'
        || ('\u{05F3}' <= c && c <= '\u{05F4}')
}

/// Checks whether `c` is a consonant, in normal or final form.
pub fn is_hbr_consonant(c: char) -> (r: bool)
    ensures
        r == hbr_consonant(c as u32),
{
    is_hbr_consonant_normal(c) || is_hbr_consonant_final(c)
}

/// Checks whether `c` is a consonant in its normal (non-final) form.
pub fn is_hbr_consonant_normal(c: char) -> (r: bool)
    ensures
        r == hbr_consonant_normal(c as u32),
{
    ('\u{05D0}' <= c && c <= '\u{05D9}')
        || ('\u{05DB}' <= c && c <= '\u{05DC}')
        || c == '\u{05DE}'
        || ('\u{05E0}' <= c && c <= '\u{05E2}')
        || c == '\u{05E4}'
        || ('\u{05E6}' <= c && c <= '\u{05EA}')
}

/// Checks whether `c` is a consonant in its final form (U+05DA, U+05DD, U+05DF,
/// U+05E3, U+05E5).
pub fn is_hbr_consonant_final(c: char) -> (r: bool)
    ensures
        r == hbr_consonant_final(c as u32),
{
    c == '\u{05DA}' || c == '\u{05DD}' || c == '\u{05DF}' || c == '\u{05E3}' || c == '\u{05E5}'
}

/// Checks whether `c` is the yod triangle (U+05EF).
pub fn is_hbr_yod_triangle(c: char) -> (r: bool)
    ensures
        r == hbr_yod_triangle(c as u32),
{
    c == '\u{05EF}'
}

/// Checks whether `c` is a Yiddish ligature of the Hebrew block (U+05F0 ..= U+05F2).
pub fn is_hbr_ligature_yiddish(c: char) -> (r: bool)
    ensures
        r == hbr_ligature_yiddish(c as u32),
{
    ('\u{05F0}' <= c && c <= '\u{05F2}')
}

// ---- the Alphabetic Presentation Forms block, Hebrew part ----

/// Checks whether `c` is one of the Hebrew characters of the Unicode block
/// "Alphabetic Presentation Forms" (U+FB1D ..= U+FB4F, where assigned).
pub fn is_apf_block(c: char) -> (r: bool)
    ensures
        r == apf_block(c as u32),
{
    is_apf_point_reading_sign(c)
        || is_apf_consonant(c)
        || is_apf_ligature_yiddisch(c)
        || is_apf_ligature(c)
}

/// Checks whether `c` is the Judeo-Spanish varika (U+FB1E).
pub fn is_apf_point_reading_sign(c: char) -> (r: bool)
    ensures
        r == apf_point_reading_sign(c as u32),
{
    c == '\u{FB1E}'
}

/// Checks whether `c` is any consonant form of the presentation forms:
/// alternative, wide, or combined with a vowel.
pub fn is_apf_consonant(c: char) -> (r: bool)
    ensures
        r == (apf_alternative(c as u32) || apf_consonant_wide(c as u32)
            || apf_consonant_with_vowel(c as u32)),
{
    is_apf_consonant_alternative(c) || is_apf_consonant_wide(c) || is_apf_consonant_with_vowel(c)
}

/// Checks whether `c` is an alternative form (U+FB20, U+FB29).
pub fn is_apf_consonant_alternative(c: char) -> (r: bool)
    ensures
        r == apf_alternative(c as u32),
{
    c == '\u{FB20}' || c == '\u{FB29}'
}

/// Checks whether `c` is a wide consonant (U+FB21 ..= U+FB28).
pub fn is_apf_consonant_wide(c: char) -> (r: bool)
    ensures
        r == apf_consonant_wide(c as u32),
{
    ('\u{FB21}' <= c && c <= '\u{FB28}')
}

/// Checks whether `c` is a consonant combined with a vowel or another point.
pub fn is_apf_consonant_with_vowel(c: char) -> (r: bool)
    ensures
        r == apf_consonant_with_vowel(c as u32),
{
    c == '\u{FB1D}'
        || ('\u{FB2A}' <= c && c <= '\u{FB36}')
        || ('\u{FB38}' <= c && c <= '\u{FB3C}')
        || c == '\u{FB3E}'
        || ('\u{FB40}' <= c && c <= '\u{FB41}')
        || ('\u{FB43}' <= c && c <= '\u{FB44}')
        || ('\u{FB46}' <= c && c <= '\u{FB4E}')
}

/// Checks whether `c` is the Yiddish ligature yod yod patah (U+FB1F).
pub fn is_apf_ligature_yiddisch(c: char) -> (r: bool)
    ensures
        r == (c as u32 == 0xFB1F),
{
    c == '\u{FB1F}'
}

/// Checks whether `c` is the ligature alef lamed (U+FB4F).
pub fn is_apf_ligature(c: char) -> (r: bool)
    ensures
        r == (c as u32 == 0xFB4F),
{
    c == '\u{FB4F}'
}

} // verus!
