//! Laws of the taxonomy: how its categories partition the two blocks, how
//! they nest, and what lies outside the script.
use vstd::prelude::*;
use crate::taxonomy::{
    apf_alternative, apf_block, apf_consonant_wide, apf_consonant_with_vowel, apf_ligature,
    apf_point_reading_sign, hbr_accent, hbr_block, hbr_consonant, hbr_consonant_final,
    hbr_consonant_normal, hbr_ligature_yiddish, hbr_mark, hbr_point, hbr_point_reading_sign,
    hbr_point_semi_vowel, hbr_point_vowel, hbr_punctuation, hbr_yod_triangle, script_hbr,
};

verus! {

/// One if `b` holds, zero otherwise.
pub open spec fn indicator(b: bool) -> int {
    if b {
        1
    } else {
        0
    }
}

/// How many leaf categories of the Hebrew block claim `cp`.
pub open spec fn hbr_leaf_count(cp: u32) -> int {
    indicator(hbr_accent(cp))
        + indicator(hbr_mark(cp))
        + indicator(hbr_point_vowel(cp))
        + indicator(hbr_point_semi_vowel(cp))
        + indicator(hbr_point_reading_sign(cp))
        + indicator(hbr_punctuation(cp))
        + indicator(hbr_consonant_normal(cp))
        + indicator(hbr_consonant_final(cp))
        + indicator(hbr_yod_triangle(cp))
        + indicator(hbr_ligature_yiddish(cp))
}

/// How many leaf categories of the presentation forms claim `cp`.
pub open spec fn apf_leaf_count(cp: u32) -> int {
    indicator(apf_consonant_with_vowel(cp))
        + indicator(apf_point_reading_sign(cp))
        + indicator(apf_ligature(cp))
        + indicator(apf_alternative(cp))
        + indicator(apf_consonant_wide(cp))
}

/// Partition of the Hebrew block: no code point is claimed by two of its leaf
/// categories (accent, mark, vowel, semi-vowel, reading sign, punctuation,
/// normal consonant, final consonant, yod triangle, Yiddish ligature), and a
/// code point is claimed by one exactly when it lies in the block's
/// categories at all; unassigned code points are claimed by none.
pub proof fn lemma_hbr_leaf_partition(c: char)
    ensures
        hbr_leaf_count(c as u32) <= 1,
        hbr_leaf_count(c as u32) == 1 <==> hbr_block(c as u32),
{
}

/// Partition of the presentation forms: no code point is claimed by two of
/// their leaf categories (consonant with vowel, reading-sign point, ligature,
/// alternative, wide consonant), and one claims it exactly when it lies in
/// the block's Hebrew part.
pub proof fn lemma_apf_leaf_partition(c: char)
    ensures
        apf_leaf_count(c as u32) <= 1,
        apf_leaf_count(c as u32) == 1 <==> apf_block(c as u32),
{
}

/// Upward containment of categories: every category implies the category
/// above it, every block category implies its block, and each block implies
/// the script. This covers the script-level groupings of both predicate
/// families as well.
pub proof fn lemma_category_containment(c: char)
    ensures
        hbr_point_vowel(c as u32) ==> hbr_point(c as u32),
        hbr_point_semi_vowel(c as u32) ==> hbr_point(c as u32),
        hbr_point_reading_sign(c as u32) ==> hbr_point(c as u32),
        hbr_consonant_normal(c as u32) ==> hbr_consonant(c as u32),
        hbr_consonant_final(c as u32) ==> hbr_consonant(c as u32),
        hbr_accent(c as u32) ==> hbr_block(c as u32),
        hbr_mark(c as u32) ==> hbr_block(c as u32),
        hbr_point(c as u32) ==> hbr_block(c as u32),
        hbr_punctuation(c as u32) ==> hbr_block(c as u32),
        hbr_consonant(c as u32) ==> hbr_block(c as u32),
        hbr_yod_triangle(c as u32) ==> hbr_block(c as u32),
        hbr_ligature_yiddish(c as u32) ==> hbr_block(c as u32),
        apf_consonant_with_vowel(c as u32) ==> apf_block(c as u32),
        apf_point_reading_sign(c as u32) ==> apf_block(c as u32),
        apf_ligature(c as u32) ==> apf_block(c as u32),
        apf_alternative(c as u32) ==> apf_block(c as u32),
        apf_consonant_wide(c as u32) ==> apf_block(c as u32),
        hbr_block(c as u32) ==> script_hbr(c as u32),
        apf_block(c as u32) ==> script_hbr(c as u32),
        (hbr_consonant(c as u32) || apf_consonant_wide(c as u32) || c as u32 == 0xFB20)
            ==> script_hbr(c as u32),
        (hbr_consonant(c as u32) || apf_alternative(c as u32) || apf_consonant_wide(c as u32)
            || apf_consonant_with_vowel(c as u32)) ==> script_hbr(c as u32),
        (hbr_point(c as u32) || apf_point_reading_sign(c as u32)) ==> script_hbr(c as u32),
        (hbr_ligature_yiddish(c as u32) || apf_ligature(c as u32)) ==> script_hbr(c as u32),
{
}

/// Upward containment of named characters: the code point of each named
/// character lies in the leaf category that the character belongs to.
pub proof fn lemma_named_character_containment(c: char)
    ensures
        c as u32 == 0x05D0 ==> hbr_consonant_normal(c as u32),
        c as u32 == 0x05D1 ==> hbr_consonant_normal(c as u32),
        c as u32 == 0x05D2 ==> hbr_consonant_normal(c as u32),
        c as u32 == 0x05D3 ==> hbr_consonant_normal(c as u32),
        c as u32 == 0x05D4 ==> hbr_consonant_normal(c as u32),
        c as u32 == 0x05D5 ==> hbr_consonant_normal(c as u32),
        c as u32 == 0x05D6 ==> hbr_consonant_normal(c as u32),
        c as u32 == 0x05D7 ==> hbr_consonant_normal(c as u32),
        c as u32 == 0x05D8 ==> hbr_consonant_normal(c as u32),
        c as u32 == 0x05D9 ==> hbr_consonant_normal(c as u32),
        c as u32 == 0x05DA ==> hbr_consonant_final(c as u32),
        c as u32 == 0x05DB ==> hbr_consonant_normal(c as u32),
        c as u32 == 0x05DC ==> hbr_consonant_normal(c as u32),
        c as u32 == 0x05DD ==> hbr_consonant_final(c as u32),
        c as u32 == 0x05DE ==> hbr_consonant_normal(c as u32),
        c as u32 == 0x05DF ==> hbr_consonant_final(c as u32),
        c as u32 == 0x05E0 ==> hbr_consonant_normal(c as u32),
        c as u32 == 0x05E1 ==> hbr_consonant_normal(c as u32),
        c as u32 == 0x05E2 ==> hbr_consonant_normal(c as u32),
        c as u32 == 0x05E3 ==> hbr_consonant_final(c as u32),
        c as u32 == 0x05E4 ==> hbr_consonant_normal(c as u32),
        c as u32 == 0x05E5 ==> hbr_consonant_final(c as u32),
        c as u32 == 0x05E6 ==> hbr_consonant_normal(c as u32),
        c as u32 == 0x05E7 ==> hbr_consonant_normal(c as u32),
        c as u32 == 0x05E8 ==> hbr_consonant_normal(c as u32),
        c as u32 == 0x05E9 ==> hbr_consonant_normal(c as u32),
        c as u32 == 0x05EA ==> hbr_consonant_normal(c as u32),
        c as u32 == 0x05B0 ==> hbr_point_semi_vowel(c as u32),
        c as u32 == 0x05B1 ==> hbr_point_semi_vowel(c as u32),
        c as u32 == 0x05B2 ==> hbr_point_semi_vowel(c as u32),
        c as u32 == 0x05B3 ==> hbr_point_semi_vowel(c as u32),
        c as u32 == 0x05B4 ==> hbr_point_vowel(c as u32),
        c as u32 == 0x05B5 ==> hbr_point_vowel(c as u32),
        c as u32 == 0x05B6 ==> hbr_point_vowel(c as u32),
        c as u32 == 0x05B7 ==> hbr_point_vowel(c as u32),
        c as u32 == 0x05B8 ==> hbr_point_vowel(c as u32),
        c as u32 == 0x05B9 ==> hbr_point_vowel(c as u32),
        c as u32 == 0x05BA ==> hbr_point_vowel(c as u32),
        c as u32 == 0x05BB ==> hbr_point_vowel(c as u32),
        c as u32 == 0x05BC ==> hbr_point_reading_sign(c as u32),
        c as u32 == 0x05BD ==> hbr_point_reading_sign(c as u32),
        c as u32 == 0x05BF ==> hbr_point_reading_sign(c as u32),
        c as u32 == 0x05C1 ==> hbr_point_reading_sign(c as u32),
        c as u32 == 0x05C2 ==> hbr_point_reading_sign(c as u32),
        c as u32 == 0x05C7 ==> hbr_point_vowel(c as u32),
        c as u32 == 0x0591 ==> hbr_accent(c as u32),
        c as u32 == 0x0592 ==> hbr_accent(c as u32),
        c as u32 == 0x0593 ==> hbr_accent(c as u32),
        c as u32 == 0x0594 ==> hbr_accent(c as u32),
        c as u32 == 0x0595 ==> hbr_accent(c as u32),
        c as u32 == 0x0596 ==> hbr_accent(c as u32),
        c as u32 == 0x0597 ==> hbr_accent(c as u32),
        c as u32 == 0x0598 ==> hbr_accent(c as u32),
        c as u32 == 0x0599 ==> hbr_accent(c as u32),
        c as u32 == 0x059A ==> hbr_accent(c as u32),
        c as u32 == 0x059B ==> hbr_accent(c as u32),
        c as u32 == 0x059C ==> hbr_accent(c as u32),
        c as u32 == 0x059D ==> hbr_accent(c as u32),
        c as u32 == 0x059E ==> hbr_accent(c as u32),
        c as u32 == 0x059F ==> hbr_accent(c as u32),
        c as u32 == 0x05A0 ==> hbr_accent(c as u32),
        c as u32 == 0x05A1 ==> hbr_accent(c as u32),
        c as u32 == 0x05A2 ==> hbr_accent(c as u32),
        c as u32 == 0x05A3 ==> hbr_accent(c as u32),
        c as u32 == 0x05A4 ==> hbr_accent(c as u32),
        c as u32 == 0x05A5 ==> hbr_accent(c as u32),
        c as u32 == 0x05A6 ==> hbr_accent(c as u32),
        c as u32 == 0x05A7 ==> hbr_accent(c as u32),
        c as u32 == 0x05A8 ==> hbr_accent(c as u32),
        c as u32 == 0x05A9 ==> hbr_accent(c as u32),
        c as u32 == 0x05AA ==> hbr_accent(c as u32),
        c as u32 == 0x05AB ==> hbr_accent(c as u32),
        c as u32 == 0x05AC ==> hbr_accent(c as u32),
        c as u32 == 0x05AD ==> hbr_accent(c as u32),
        c as u32 == 0x05AE ==> hbr_accent(c as u32),
        c as u32 == 0x05AF ==> hbr_mark(c as u32),
        c as u32 == 0x05C4 ==> hbr_mark(c as u32),
        c as u32 == 0x05C5 ==> hbr_mark(c as u32),
        c as u32 == 0x05BE ==> hbr_punctuation(c as u32),
        c as u32 == 0x05C0 ==> hbr_punctuation(c as u32),
        c as u32 == 0x05C3 ==> hbr_punctuation(c as u32),
        c as u32 == 0x05C6 ==> hbr_punctuation(c as u32),
        c as u32 == 0x05F3 ==> hbr_punctuation(c as u32),
        c as u32 == 0x05F4 ==> hbr_punctuation(c as u32),
        c as u32 == 0x05EF ==> hbr_yod_triangle(c as u32),
        c as u32 == 0x05F0 ==> hbr_ligature_yiddish(c as u32),
        c as u32 == 0x05F1 ==> hbr_ligature_yiddish(c as u32),
        c as u32 == 0x05F2 ==> hbr_ligature_yiddish(c as u32),
        c as u32 == 0xFB21 ==> apf_consonant_wide(c as u32),
        c as u32 == 0xFB22 ==> apf_consonant_wide(c as u32),
        c as u32 == 0xFB23 ==> apf_consonant_wide(c as u32),
        c as u32 == 0xFB24 ==> apf_consonant_wide(c as u32),
        c as u32 == 0xFB25 ==> apf_consonant_wide(c as u32),
        c as u32 == 0xFB26 ==> apf_consonant_wide(c as u32),
        c as u32 == 0xFB27 ==> apf_consonant_wide(c as u32),
        c as u32 == 0xFB28 ==> apf_consonant_wide(c as u32),
        c as u32 == 0xFB1D ==> apf_consonant_with_vowel(c as u32),
        c as u32 == 0xFB2A ==> apf_consonant_with_vowel(c as u32),
        c as u32 == 0xFB2B ==> apf_consonant_with_vowel(c as u32),
        c as u32 == 0xFB2C ==> apf_consonant_with_vowel(c as u32),
        c as u32 == 0xFB2D ==> apf_consonant_with_vowel(c as u32),
        c as u32 == 0xFB2E ==> apf_consonant_with_vowel(c as u32),
        c as u32 == 0xFB2F ==> apf_consonant_with_vowel(c as u32),
        c as u32 == 0xFB30 ==> apf_consonant_with_vowel(c as u32),
        c as u32 == 0xFB31 ==> apf_consonant_with_vowel(c as u32),
        c as u32 == 0xFB32 ==> apf_consonant_with_vowel(c as u32),
        c as u32 == 0xFB33 ==> apf_consonant_with_vowel(c as u32),
        c as u32 == 0xFB34 ==> apf_consonant_with_vowel(c as u32),
        c as u32 == 0xFB35 ==> apf_consonant_with_vowel(c as u32),
        c as u32 == 0xFB36 ==> apf_consonant_with_vowel(c as u32),
        c as u32 == 0xFB38 ==> apf_consonant_with_vowel(c as u32),
        c as u32 == 0xFB39 ==> apf_consonant_with_vowel(c as u32),
        c as u32 == 0xFB3A ==> apf_consonant_with_vowel(c as u32),
        c as u32 == 0xFB3B ==> apf_consonant_with_vowel(c as u32),
        c as u32 == 0xFB3C ==> apf_consonant_with_vowel(c as u32),
        c as u32 == 0xFB3E ==> apf_consonant_with_vowel(c as u32),
        c as u32 == 0xFB40 ==> apf_consonant_with_vowel(c as u32),
        c as u32 == 0xFB41 ==> apf_consonant_with_vowel(c as u32),
        c as u32 == 0xFB43 ==> apf_consonant_with_vowel(c as u32),
        c as u32 == 0xFB44 ==> apf_consonant_with_vowel(c as u32),
        c as u32 == 0xFB46 ==> apf_consonant_with_vowel(c as u32),
        c as u32 == 0xFB47 ==> apf_consonant_with_vowel(c as u32),
        c as u32 == 0xFB48 ==> apf_consonant_with_vowel(c as u32),
        c as u32 == 0xFB49 ==> apf_consonant_with_vowel(c as u32),
        c as u32 == 0xFB4A ==> apf_consonant_with_vowel(c as u32),
        c as u32 == 0xFB4B ==> apf_consonant_with_vowel(c as u32),
        c as u32 == 0xFB4C ==> apf_consonant_with_vowel(c as u32),
        c as u32 == 0xFB4D ==> apf_consonant_with_vowel(c as u32),
        c as u32 == 0xFB4E ==> apf_consonant_with_vowel(c as u32),
        c as u32 == 0xFB20 ==> apf_alternative(c as u32),
        c as u32 == 0xFB29 ==> apf_alternative(c as u32),
        c as u32 == 0xFB1F ==> apf_ligature(c as u32),
        c as u32 == 0xFB4F ==> apf_ligature(c as u32),
        c as u32 == 0xFB1E ==> apf_point_reading_sign(c as u32),
{
}

/// Completeness of the Hebrew block: its predicate holds exactly when the
/// code point falls in one of its seven groups, and these cover every
/// assigned code point of U+0590 ..= U+05FF, that is U+0591 ..= U+05C7,
/// U+05D0 ..= U+05EA and U+05EF ..= U+05F4.
pub proof fn lemma_hbr_block_completeness(c: char)
    requires
        0x0590 <= c as u32 <= 0x05FF,
    ensures
        hbr_block(c as u32) == (hbr_accent(c as u32) || hbr_mark(c as u32) || hbr_point(c as u32)
            || hbr_punctuation(c as u32) || hbr_consonant(c as u32) || hbr_yod_triangle(c as u32)
            || hbr_ligature_yiddish(c as u32)),
        hbr_block(c as u32) == ((0x0591 <= c as u32 <= 0x05C7) || (0x05D0 <= c as u32 <= 0x05EA)
            || (0x05EF <= c as u32 <= 0x05F4)),
{
}

/// Completeness of the presentation forms: within U+FB1D ..= U+FB4F their
/// predicate holds exactly on the assigned Hebrew code points, U+FB1D ..=
/// U+FB36, U+FB38 ..= U+FB3C, U+FB3E, U+FB40 ..= U+FB41, U+FB43 ..= U+FB44
/// and U+FB46 ..= U+FB4F.
pub proof fn lemma_apf_block_completeness(c: char)
    requires
        0xFB1D <= c as u32 <= 0xFB4F,
    ensures
        apf_block(c as u32) == ((0xFB1D <= c as u32 <= 0xFB36) || (0xFB38 <= c as u32 <= 0xFB3C)
            || c as u32 == 0xFB3E || (0xFB40 <= c as u32 <= 0xFB41)
                || (0xFB43 <= c as u32 <= 0xFB44)
            || (0xFB46 <= c as u32 <= 0xFB4F)),
{
}

/// Nothing outside U+0590 ..= U+05FF and U+FB1D ..= U+FB4F belongs to the
/// Hebrew script, nor to either of its blocks.
pub proof fn lemma_outside_blocks(c: char)
    requires
        !(0x0590 <= c as u32 <= 0x05FF),
        !(0xFB1D <= c as u32 <= 0xFB4F),
    ensures
        !hbr_block(c as u32),
        !apf_block(c as u32),
        !script_hbr(c as u32),
{
}

} // verus!
