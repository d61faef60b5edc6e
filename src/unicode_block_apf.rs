//! One predicate per named Hebrew character of the Unicode block
//! "Alphabetic Presentation Forms".
//!
//! Each predicate holds of exactly one code point.
use vstd::prelude::*;

verus! {

// ---- wide consonants ----

/// Checks whether `c` is U+FB21, the wide letter alef.
pub fn is_apf_consonant_wide_alef(c: char) -> (r: bool)
    ensures
        r == (c as u32 == 0xFB21),
{
    c == '\u{FB21}'
}

/// Checks whether `c` is U+FB22, the wide letter dalet.
pub fn is_apf_consonant_wide_dalet(c: char) -> (r: bool)
    ensures
        r == (c as u32 == 0xFB22),
{
    c == '\u{FB22}'
}

/// Checks whether `c` is U+FB23, the wide letter he.
pub fn is_apf_consonant_wide_he(c: char) -> (r: bool)
    ensures
        r == (c as u32 == 0xFB23),
{
    c == '\u{FB23}'
}

/// Checks whether `c` is U+FB24, the wide letter kaf.
pub fn is_apf_consonant_wide_kaf(c: char) -> (r: bool)
    ensures
        r == (c as u32 == 0xFB24),
{
    c == '\u{FB24}'
}

/// Checks whether `c` is U+FB25, the wide letter lamed.
pub fn is_apf_consonant_wide_lamed(c: char) -> (r: bool)
    ensures
        r == (c as u32 == 0xFB25),
{
    c == '\u{FB25}'
}

/// Checks whether `c` is U+FB26, the wide letter final mem.
pub fn is_apf_consonant_wide_final_mem(c: char) -> (r: bool)
    ensures
        r == (c as u32 == 0xFB26),
{
    c == '\u{FB26}'
}

/// Checks whether `c` is U+FB27, the wide letter resh.
pub fn is_apf_consonant_wide_resh(c: char) -> (r: bool)
    ensures
        r == (c as u32 == 0xFB27),
{
    c == '\u{FB27}'
}

/// Checks whether `c` is U+FB28, the wide letter tav.
pub fn is_apf_consonant_wide_tav(c: char) -> (r: bool)
    ensures
        r == (c as u32 == 0xFB28),
{
    c == '\u{FB28}'
}

// ---- consonants with a vowel or point ----

/// Checks whether `c` is U+FB1D, the letter yod with hiriq.
pub fn is_apf_consonant_vowel_yod_hiriq(c: char) -> (r: bool)
    ensures
        r == (c as u32 == 0xFB1D),
{
    c == '\u{FB1D}'
}

/// Checks whether `c` is U+FB2A, the letter shin with shindot.
pub fn is_apf_consonant_vowel_shin_shindot(c: char) -> (r: bool)
    ensures
        r == (c as u32 == 0xFB2A),
{
    c == '\u{FB2A}'
}

/// Checks whether `c` is U+FB2B, the letter shin with sindot.
pub fn is_apf_consonant_vowel_shin_sindot(c: char) -> (r: bool)
    ensures
        r == (c as u32 == 0xFB2B),
{
    c == '\u{FB2B}'
}

/// Checks whether `c` is U+FB2C, the letter shin with dagesh and shindot.
pub fn is_apf_consonant_vowel_shin_dagesh_shindot(c: char) -> (r: bool)
    ensures
        r == (c as u32 == 0xFB2C),
{
    c == '\u{FB2C}'
}

/// Checks whether `c` is U+FB2D, the letter shin with dagesh and sindot.
pub fn is_apf_consonant_vowel_shin_dagesh_sindot(c: char) -> (r: bool)
    ensures
        r == (c as u32 == 0xFB2D),
{
    c == '\u{FB2D}'
}

/// Checks whether `c` is U+FB2E, the letter alef with patah.
pub fn is_apf_consonant_vowel_alef_patah(c: char) -> (r: bool)
    ensures
        r == (c as u32 == 0xFB2E),
{
    c == '\u{FB2E}'
}

/// Checks whether `c` is U+FB2F, the letter alef with qamats.
pub fn is_apf_consonant_vowel_alef_qamats(c: char) -> (r: bool)
    ensures
        r == (c as u32 == 0xFB2F),
{
    c == '\u{FB2F}'
}

/// Checks whether `c` is U+FB30, the letter alef with mapiq.
pub fn is_apf_consonant_vowel_alef_mapiq(c: char) -> (r: bool)
    ensures
        r == (c as u32 == 0xFB30),
{
    c == '\u{FB30}'
}

/// Checks whether `c` is U+FB31, the letter bet with dagesh.
pub fn is_apf_consonant_vowel_bet_dagesh(c: char) -> (r: bool)
    ensures
        r == (c as u32 == 0xFB31),
{
    c == '\u{FB31}'
}

/// Checks whether `c` is U+FB32, the letter gimmel with dagesh.
pub fn is_apf_consonant_vowel_gimmel_dagesh(c: char) -> (r: bool)
    ensures
        r == (c as u32 == 0xFB32),
{
    c == '\u{FB32}'
}

/// Checks whether `c` is U+FB33, the letter dalet with dagesh.
pub fn is_apf_consonant_vowel_dalet_dagesh(c: char) -> (r: bool)
    ensures
        r == (c as u32 == 0xFB33),
{
    c == '\u{FB33}'
}

/// Checks whether `c` is U+FB34, the letter he with mapiq.
pub fn is_apf_consonant_vowel_he_mapiq(c: char) -> (r: bool)
    ensures
        r == (c as u32 == 0xFB34),
{
    c == '\u{FB34}'
}

/// Checks whether `c` is U+FB35, the letter vav with dagesh.
pub fn is_apf_consonant_vowel_vav_dagesh(c: char) -> (r: bool)
    ensures
        r == (c as u32 == 0xFB35),
{
    c == '\u{FB35}'
}

/// Checks whether `c` is U+FB36, the letter zayin with dagesh.
pub fn is_apf_consonant_vowel_zayin_dagesh(c: char) -> (r: bool)
    ensures
        r == (c as u32 == 0xFB36),
{
    c == '\u{FB36}'
}

/// Checks whether `c` is U+FB38, the letter tet with dagesh.
pub fn is_apf_consonant_vowel_tet_dagesh(c: char) -> (r: bool)
    ensures
        r == (c as u32 == 0xFB38),
{
    c == '\u{FB38}'
}

/// Checks whether `c` is U+FB39, the letter yod with dagesh.
pub fn is_apf_consonant_vowel_yod_dagesh(c: char) -> (r: bool)
    ensures
        r == (c as u32 == 0xFB39),
{
    c == '\u{FB39}'
}

/// Checks whether `c` is U+FB3A, the letter final kaf with dagesh.
pub fn is_apf_consonant_vowel_final_kaf_dagesh(c: char) -> (r: bool)
    ensures
        r == (c as u32 == 0xFB3A),
{
    c == '\u{FB3A}'
}

/// Checks whether `c` is U+FB3B, the letter kaf with dagesh.
pub fn is_apf_consonant_vowel_kaf_dagesh(c: char) -> (r: bool)
    ensures
        r == (c as u32 == 0xFB3B),
{
    c == '\u{FB3B}'
}

/// Checks whether `c` is U+FB3C, the letter lamed with dagesh.
pub fn is_apf_consonant_vowel_lamed_dagesh(c: char) -> (r: bool)
    ensures
        r == (c as u32 == 0xFB3C),
{
    c == '\u{FB3C}'
}

/// Checks whether `c` is U+FB3E, the letter mem with dagesh.
pub fn is_apf_consonant_vowel_mem_dagesh(c: char) -> (r: bool)
    ensures
        r == (c as u32 == 0xFB3E),
{
    c == '\u{FB3E}'
}

/// Checks whether `c` is U+FB40, the letter nun with dagesh.
pub fn is_apf_consonant_vowel_nun_dagesh(c: char) -> (r: bool)
    ensures
        r == (c as u32 == 0xFB40),
{
    c == '\u{FB40}'
}

/// Checks whether `c` is U+FB41, the letter samekh with dagesh.
pub fn is_apf_consonant_vowel_samekh_dagesh(c: char) -> (r: bool)
    ensures
        r == (c as u32 == 0xFB41),
{
    c == '\u{FB41}'
}

/// Checks whether `c` is U+FB43, the letter final pe with dagesh.
pub fn is_apf_consonant_vowel_final_pe_dagesh(c: char) -> (r: bool)
    ensures
        r == (c as u32 == 0xFB43),
{
    c == '\u{FB43}'
}

/// Checks whether `c` is U+FB44, the letter pe with dagesh.
pub fn is_apf_consonant_vowel_pe_dagesh(c: char) -> (r: bool)
    ensures
        r == (c as u32 == 0xFB44),
{
    c == '\u{FB44}'
}

/// Checks whether `c` is U+FB46, the letter tsadi with dagesh.
pub fn is_apf_consonant_vowel_tsadi_dagesh(c: char) -> (r: bool)
    ensures
        r == (c as u32 == 0xFB46),
{
    c == '\u{FB46}'
}

/// Checks whether `c` is U+FB47, the letter qof with dagesh.
pub fn is_apf_consonant_vowel_qof_dagesh(c: char) -> (r: bool)
    ensures
        r == (c as u32 == 0xFB47),
{
    c == '\u{FB47}'
}

/// Checks whether `c` is U+FB48, the letter resh with dagesh.
pub fn is_apf_consonant_vowel_resh_dagesh(c: char) -> (r: bool)
    ensures
        r == (c as u32 == 0xFB48),
{
    c == '\u{FB48}'
}

/// Checks whether `c` is U+FB49, the letter shin with dagesh.
pub fn is_apf_consonant_vowel_shin_dagesh(c: char) -> (r: bool)
    ensures
        r == (c as u32 == 0xFB49),
{
    c == '\u{FB49}'
}

/// Checks whether `c` is U+FB4A, the letter tav with dagesh.
pub fn is_apf_consonant_vowel_tav_dagesh(c: char) -> (r: bool)
    ensures
        r == (c as u32 == 0xFB4A),
{
    c == '\u{FB4A}'
}

/// Checks whether `c` is U+FB4B, the letter vav with holam.
pub fn is_apf_consonant_vowel_vav_holam(c: char) -> (r: bool)
    ensures
        r == (c as u32 == 0xFB4B),
{
    c == '\u{FB4B}'
}

/// Checks whether `c` is U+FB4C, the letter bet with rafe.
pub fn is_apf_consonant_vowel_bet_rafe(c: char) -> (r: bool)
    ensures
        r == (c as u32 == 0xFB4C),
{
    c == '\u{FB4C}'
}

/// Checks whether `c` is U+FB4D, the letter kaf with rafe.
pub fn is_apf_consonant_vowel_kaf_rafe(c: char) -> (r: bool)
    ensures
        r == (c as u32 == 0xFB4D),
{
    c == '\u{FB4D}'
}

/// Checks whether `c` is U+FB4E, the letter pe with rafe.
pub fn is_apf_consonant_vowel_pe_rafe(c: char) -> (r: bool)
    ensures
        r == (c as u32 == 0xFB4E),
{
    c == '\u{FB4E}'
}

// ---- alternative forms ----

/// Checks whether `c` is U+FB20, the alternative letter ayin.
pub fn is_apf_consonant_alternative_ayin(c: char) -> (r: bool)
    ensures
        r == (c as u32 == 0xFB20),
{
    c == '\u{FB20}'
}

/// Checks whether `c` is U+FB29, the alternative plus sign.
pub fn is_apf_letter_alternative_plus_sign(c: char) -> (r: bool)
    ensures
        r == (c as u32 == 0xFB29),
{
    c == '\u{FB29}'
}

// ---- ligatures ----

/// Checks whether `c` is U+FB1F, the Yiddish ligature yod yod patah.
pub fn is_apf_ligature_yiddisch_yod_yod_patah(c: char) -> (r: bool)
    ensures
        r == (c as u32 == 0xFB1F),
{
    c == '\u{FB1F}'
}

/// Checks whether `c` is U+FB4F, the ligature alef lamed.
pub fn is_apf_ligature_alef_lamed(c: char) -> (r: bool)
    ensures
        r == (c as u32 == 0xFB4F),
{
    c == '\u{FB4F}'
}

// ---- points ----

/// Checks whether `c` is U+FB1E, the Judeo-Spanish varika point.
pub fn is_apf_point_judeo_spanish_varika(c: char) -> (r: bool)
    ensures
        r == (c as u32 == 0xFB1E),
{
    c == '\u{FB1E}'
}

} // verus!
