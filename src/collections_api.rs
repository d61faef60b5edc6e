//! Grouped predicates: each category of the taxonomy as the union of the
//! named characters that belong to it, and the blocks and the script as
//! unions of categories.
use vstd::prelude::*;
use crate::taxonomy::{
    apf_alternative, apf_block, apf_consonant_wide, apf_consonant_with_vowel, apf_ligature,
    apf_point_reading_sign, hbr_accent, hbr_block, hbr_consonant, hbr_consonant_final,
    hbr_consonant_normal, hbr_ligature_yiddish, hbr_mark, hbr_point, hbr_point_reading_sign,
    hbr_point_semi_vowel, hbr_point_vowel, hbr_punctuation, script_hbr,
};
use crate::unicode_block_apf::{
    is_apf_consonant_alternative_ayin, is_apf_consonant_vowel_alef_mapiq,
    is_apf_consonant_vowel_alef_patah, is_apf_consonant_vowel_alef_qamats,
    is_apf_consonant_vowel_bet_dagesh, is_apf_consonant_vowel_bet_rafe,
    is_apf_consonant_vowel_dalet_dagesh, is_apf_consonant_vowel_final_kaf_dagesh,
    is_apf_consonant_vowel_final_pe_dagesh, is_apf_consonant_vowel_gimmel_dagesh,
    is_apf_consonant_vowel_he_mapiq, is_apf_consonant_vowel_kaf_dagesh,
    is_apf_consonant_vowel_kaf_rafe, is_apf_consonant_vowel_lamed_dagesh,
    is_apf_consonant_vowel_mem_dagesh, is_apf_consonant_vowel_nun_dagesh,
    is_apf_consonant_vowel_pe_dagesh, is_apf_consonant_vowel_pe_rafe,
    is_apf_consonant_vowel_qof_dagesh, is_apf_consonant_vowel_resh_dagesh,
    is_apf_consonant_vowel_samekh_dagesh, is_apf_consonant_vowel_shin_dagesh,
    is_apf_consonant_vowel_shin_dagesh_shindot, is_apf_consonant_vowel_shin_dagesh_sindot,
    is_apf_consonant_vowel_shin_shindot, is_apf_consonant_vowel_shin_sindot,
    is_apf_consonant_vowel_tav_dagesh, is_apf_consonant_vowel_tet_dagesh,
    is_apf_consonant_vowel_tsadi_dagesh, is_apf_consonant_vowel_vav_dagesh,
    is_apf_consonant_vowel_vav_holam, is_apf_consonant_vowel_yod_dagesh,
    is_apf_consonant_vowel_yod_hiriq, is_apf_consonant_vowel_zayin_dagesh,
    is_apf_consonant_wide_alef, is_apf_consonant_wide_dalet, is_apf_consonant_wide_final_mem,
    is_apf_consonant_wide_he, is_apf_consonant_wide_kaf, is_apf_consonant_wide_lamed,
    is_apf_consonant_wide_resh, is_apf_consonant_wide_tav, is_apf_letter_alternative_plus_sign,
    is_apf_ligature_alef_lamed, is_apf_ligature_yiddisch_yod_yod_patah,
    is_apf_point_judeo_spanish_varika,
};
use crate::unicode_block_hbr::{
    is_hbr_accent_atnah_hafukh, is_hbr_accent_darga, is_hbr_accent_dehi, is_hbr_accent_etnahta,
    is_hbr_accent_geresh, is_hbr_accent_geresh_muqdam, is_hbr_accent_gershayim, is_hbr_accent_iluy,
    is_hbr_accent_mahapakh, is_hbr_accent_merkha, is_hbr_accent_merkha_kefula, is_hbr_accent_munah,
    is_hbr_accent_ole, is_hbr_accent_pashta, is_hbr_accent_pazer, is_hbr_accent_qadma,
    is_hbr_accent_qarney_para, is_hbr_accent_revia, is_hbr_accent_segol, is_hbr_accent_shalshelet,
    is_hbr_accent_telisha_gedola, is_hbr_accent_telisha_qetana, is_hbr_accent_tevir,
    is_hbr_accent_tipeha, is_hbr_accent_yerah_ben_yomo, is_hbr_accent_yetiv,
    is_hbr_accent_zaqef_gadol, is_hbr_accent_zaqef_qatan, is_hbr_accent_zarqa, is_hbr_accent_zinor,
    is_hbr_consonant_alef, is_hbr_consonant_ayin, is_hbr_consonant_bet, is_hbr_consonant_dalet,
    is_hbr_consonant_final_kaf, is_hbr_consonant_final_mem, is_hbr_consonant_final_nun,
    is_hbr_consonant_final_pe, is_hbr_consonant_final_tsadi, is_hbr_consonant_gimel,
    is_hbr_consonant_he, is_hbr_consonant_het, is_hbr_consonant_kaf, is_hbr_consonant_lamed,
    is_hbr_consonant_mem, is_hbr_consonant_nun, is_hbr_consonant_pe, is_hbr_consonant_qof,
    is_hbr_consonant_resh, is_hbr_consonant_samekh, is_hbr_consonant_shin, is_hbr_consonant_tav,
    is_hbr_consonant_tet, is_hbr_consonant_tsadi, is_hbr_consonant_vav, is_hbr_consonant_yod,
    is_hbr_consonant_zayin, is_hbr_ligature_yiddisch_double_vav,
    is_hbr_ligature_yiddisch_double_yod, is_hbr_ligature_yiddisch_vav_yod, is_hbr_mark_lower_dot,
    is_hbr_mark_masora_circle, is_hbr_mark_upper_dot, is_hbr_point_dagesh_or_mapiq,
    is_hbr_point_hataf_patah, is_hbr_point_hataf_qamats, is_hbr_point_hataf_segol,
    is_hbr_point_hiriq, is_hbr_point_holam, is_hbr_point_holam_haser_for_vav, is_hbr_point_meteg,
    is_hbr_point_patah, is_hbr_point_qamats, is_hbr_point_qamats_qatan, is_hbr_point_qubuts,
    is_hbr_point_rafe, is_hbr_point_segol, is_hbr_point_sheva, is_hbr_point_shin_dot,
    is_hbr_point_sin_dot, is_hbr_point_tsere, is_hbr_punctuation_geresh,
    is_hbr_punctuation_gershayim, is_hbr_punctuation_maqaf, is_hbr_punctuation_nun_hafukha,
    is_hbr_punctuation_paseq, is_hbr_punctuation_sof_pasuq, is_hbr_yod_triangle,
};

verus! {

// ---- the script ----

/// Checks whether `c` belongs to the Hebrew script: either Hebrew block.
pub fn is_script_hbr(c: char) -> (r: bool)
    ensures
        r == script_hbr(c as u32),
{
    is_hbr_block(c) || is_apf_block(c)
}

/// Checks whether `c` is a consonant of the Hebrew script: a consonant of the
/// Hebrew block, a wide consonant or the alternative ayin.
pub fn is_script_hbr_consonant(c: char) -> (r: bool)
    ensures
        r == (hbr_consonant(c as u32) || apf_consonant_wide(c as u32) || c as u32 == 0xFB20),
{
    is_hbr_consonant(c) || is_apf_consonant(c)
}

/// Checks whether `c` is a point of the Hebrew script: a point of the Hebrew
/// block or the Judeo-Spanish varika.
pub fn is_script_hbr_point(c: char) -> (r: bool)
    ensures
        r == (hbr_point(c as u32) || apf_point_reading_sign(c as u32)),
{
    is_hbr_point(c) || is_apf_point_reading_sign(c)
}

/// Checks whether `c` is a reading-sign point of the Hebrew script.
pub fn is_script_hbr_point_reading_sign(c: char) -> (r: bool)
    ensures
        r == (hbr_point_reading_sign(c as u32) || apf_point_reading_sign(c as u32)),
{
    is_hbr_point_reading_sign(c) || is_apf_point_reading_sign(c)
}

/// Checks whether `c` is a ligature of the Hebrew script, in either block.
pub fn is_script_hbr_ligature(c: char) -> (r: bool)
    ensures
        r == (hbr_ligature_yiddish(c as u32) || apf_ligature(c as u32)),
{
    is_hbr_ligature_yiddish(c) || is_apf_ligature(c)
}

/// Checks whether `c` is a Yiddish ligature of the Hebrew script: one of the
/// three of the Hebrew block or yod yod patah (U+FB1F).
pub fn is_script_hbr_ligature_yiddisch(c: char) -> (r: bool)
    ensures
        r == (hbr_ligature_yiddish(c as u32) || c as u32 == 0xFB1F),
{
    is_hbr_ligature_yiddish(c) || is_apf_ligature_yiddisch_yod_yod_patah(c)
}

// ---- the Hebrew block ----

/// Checks whether `c` belongs to the Unicode block "Hebrew": an accent, a mark,
/// a point, a punctuation, a consonant, the yod triangle or a Yiddish ligature.
pub fn is_hbr_block(c: char) -> (r: bool)
    ensures
        r == hbr_block(c as u32),
{
    is_hbr_accent(c)
        || is_hbr_mark(c)
        || is_hbr_point(c)
        || is_hbr_punctuation(c)
        || is_hbr_consonant(c)
        || is_hbr_yod_triangle(c)
        || is_hbr_ligature_yiddish(c)
}

/// Checks whether `c` is a cantillation accent (U+0591 ..= U+05AE).
pub fn is_hbr_accent(c: char) -> (r: bool)
    ensures
        r == hbr_accent(c as u32),
{
    is_hbr_accent_etnahta(c)
        || is_hbr_accent_segol(c)
        || is_hbr_accent_shalshelet(c)
        || is_hbr_accent_zaqef_qatan(c)
        || is_hbr_accent_zaqef_gadol(c)
        || is_hbr_accent_tipeha(c)
        || is_hbr_accent_revia(c)
        || is_hbr_accent_zarqa(c)
        || is_hbr_accent_pashta(c)
        || is_hbr_accent_yetiv(c)
        || is_hbr_accent_tevir(c)
        || is_hbr_accent_geresh(c)
        || is_hbr_accent_geresh_muqdam(c)
        || is_hbr_accent_gershayim(c)
        || is_hbr_accent_qarney_para(c)
        || is_hbr_accent_telisha_gedola(c)
        || is_hbr_accent_pazer(c)
        || is_hbr_accent_atnah_hafukh(c)
        || is_hbr_accent_munah(c)
        || is_hbr_accent_mahapakh(c)
        || is_hbr_accent_merkha(c)
        || is_hbr_accent_merkha_kefula(c)
        || is_hbr_accent_darga(c)
        || is_hbr_accent_qadma(c)
        || is_hbr_accent_telisha_qetana(c)
        || is_hbr_accent_yerah_ben_yomo(c)
        || is_hbr_accent_ole(c)
        || is_hbr_accent_iluy(c)
        || is_hbr_accent_dehi(c)
        || is_hbr_accent_zinor(c)
}

/// Checks whether `c` is a mark (U+05AF, U+05C4, U+05C5).
pub fn is_hbr_mark(c: char) -> (r: bool)
    ensures
        r == hbr_mark(c as u32),
{
    is_hbr_mark_lower_dot(c) || is_hbr_mark_upper_dot(c) || is_hbr_mark_masora_circle(c)
}

/// Checks whether `c` is a point: a vowel, a semi-vowel or a reading sign.
pub fn is_hbr_point(c: char) -> (r: bool)
    ensures
        r == hbr_point(c as u32),
{
    is_hbr_point_vowel(c) || is_hbr_point_semi_vowel(c) || is_hbr_point_reading_sign(c)
}

/// Checks whether `c` is a vowel point (U+05B4 ..= U+05BB, U+05C7).
pub fn is_hbr_point_vowel(c: char) -> (r: bool)
    ensures
        r == hbr_point_vowel(c as u32),
{
    is_hbr_point_hiriq(c)
        || is_hbr_point_tsere(c)
        || is_hbr_point_segol(c)
        || is_hbr_point_patah(c)
        || is_hbr_point_qamats(c)
        || is_hbr_point_holam(c)
        || is_hbr_point_holam_haser_for_vav(c)
        || is_hbr_point_qubuts(c)
        || is_hbr_point_qamats_qatan(c)
}

/// Checks whether `c` is a semi-vowel point (U+05B0 ..= U+05B3).
pub fn is_hbr_point_semi_vowel(c: char) -> (r: bool)
    ensures
        r == hbr_point_semi_vowel(c as u32),
{
    is_hbr_point_sheva(c)
        || is_hbr_point_hataf_segol(c)
        || is_hbr_point_hataf_patah(c)
        || is_hbr_point_hataf_qamats(c)
}

/// Checks whether `c` is a reading-sign point (U+05BC ..= U+05BD, U+05BF,
/// U+05C1 ..= U+05C2).
pub fn is_hbr_point_reading_sign(c: char) -> (r: bool)
    ensures
        r == hbr_point_reading_sign(c as u32),
{
    is_hbr_point_dagesh_or_mapiq(c)
        || is_hbr_point_meteg(c)
        || is_hbr_point_rafe(c)
        || is_hbr_point_shin_dot(c)
        || is_hbr_point_sin_dot(c)
}

/// Checks whether `c` is a punctuation (U+05BE, U+05C0, U+05C3, U+05C6,
/// U+05F3 ..= U+05F4).
pub fn is_hbr_punctuation(c: char) -> (r: bool)
    ensures
        r == hbr_punctuation(c as u32),
{
    is_hbr_punctuation_maqaf(c)
        || is_hbr_punctuation_paseq(c)
        || is_hbr_punctuation_sof_pasuq(c)
        || is_hbr_punctuation_nun_hafukha(c)
        || is_hbr_punctuation_geresh(c)
        || is_hbr_punctuation_gershayim(c)
}

/// Checks whether `c` is a consonant, in normal or final form.
pub fn is_hbr_consonant(c: char) -> (r: bool)
    ensures
        r == hbr_consonant(c as u32),
{
    is_hbr_consonant_normal(c) || is_hbr_consonant_final(c)
}

/// Checks whether `c` is a consonant in its normal (non-final) form.
pub fn is_hbr_consonant_normal(c: char) -> (r: bool)
    ensures
        r == hbr_consonant_normal(c as u32),
{
    is_hbr_consonant_alef(c)
        || is_hbr_consonant_bet(c)
        || is_hbr_consonant_gimel(c)
        || is_hbr_consonant_dalet(c)
        || is_hbr_consonant_he(c)
        || is_hbr_consonant_vav(c)
        || is_hbr_consonant_zayin(c)
        || is_hbr_consonant_het(c)
        || is_hbr_consonant_tet(c)
        || is_hbr_consonant_yod(c)
        || is_hbr_consonant_kaf(c)
        || is_hbr_consonant_lamed(c)
        || is_hbr_consonant_mem(c)
        || is_hbr_consonant_nun(c)
        || is_hbr_consonant_samekh(c)
        || is_hbr_consonant_ayin(c)
        || is_hbr_consonant_pe(c)
        || is_hbr_consonant_tsadi(c)
        || is_hbr_consonant_qof(c)
        || is_hbr_consonant_resh(c)
        || is_hbr_consonant_shin(c)
        || is_hbr_consonant_tav(c)
}

/// Checks whether `c` is a consonant in its final form (U+05DA, U+05DD, U+05DF,
/// U+05E3, U+05E5).
pub fn is_hbr_consonant_final(c: char) -> (r: bool)
    ensures
        r == hbr_consonant_final(c as u32),
{
    is_hbr_consonant_final_kaf(c)
        || is_hbr_consonant_final_mem(c)
        || is_hbr_consonant_final_nun(c)
        || is_hbr_consonant_final_pe(c)
        || is_hbr_consonant_final_tsadi(c)
}

/// Checks whether `c` is a Yiddish ligature of the Hebrew block (U+05F0 ..= U+05F2).
pub fn is_hbr_ligature_yiddish(c: char) -> (r: bool)
    ensures
        r == hbr_ligature_yiddish(c as u32),
{
    is_hbr_ligature_yiddisch_double_vav(c)
        || is_hbr_ligature_yiddisch_double_yod(c)
        || is_hbr_ligature_yiddisch_vav_yod(c)
}

// ---- the Alphabetic Presentation Forms block, Hebrew part ----

/// Checks whether `c` is one of the Hebrew characters of the Unicode block
/// "Alphabetic Presentation Forms" (U+FB1D ..= U+FB4F, where assigned).
pub fn is_apf_block(c: char) -> (r: bool)
    ensures
        r == apf_block(c as u32),
{
    is_apf_consonant_with_vowel(c)
        || is_apf_point_reading_sign(c)
        || is_apf_ligature(c)
        || is_apf_alternative(c)
        || is_apf_consonant_wide(c)
}

/// Checks whether `c` is a plain consonant of the presentation forms: a wide
/// consonant or the alternative ayin (U+FB20).
pub fn is_apf_consonant(c: char) -> (r: bool)
    ensures
        r == (apf_consonant_wide(c as u32) || c as u32 == 0xFB20),
{
    is_apf_consonant_wide(c) || is_apf_consonant_alternative_ayin(c)
}

/// Checks whether `c` is a consonant combined with a vowel or another point.
pub fn is_apf_consonant_with_vowel(c: char) -> (r: bool)
    ensures
        r == apf_consonant_with_vowel(c as u32),
{
    is_apf_consonant_vowel_yod_hiriq(c)
        || is_apf_consonant_vowel_shin_shindot(c)
        || is_apf_consonant_vowel_shin_sindot(c)
        || is_apf_consonant_vowel_shin_dagesh_shindot(c)
        || is_apf_consonant_vowel_shin_dagesh_sindot(c)
        || is_apf_consonant_vowel_alef_patah(c)
        || is_apf_consonant_vowel_alef_qamats(c)
        || is_apf_consonant_vowel_alef_mapiq(c)
        || is_apf_consonant_vowel_bet_dagesh(c)
        || is_apf_consonant_vowel_gimmel_dagesh(c)
        || is_apf_consonant_vowel_dalet_dagesh(c)
        || is_apf_consonant_vowel_he_mapiq(c)
        || is_apf_consonant_vowel_vav_dagesh(c)
        || is_apf_consonant_vowel_zayin_dagesh(c)
        || is_apf_consonant_vowel_tet_dagesh(c)
        || is_apf_consonant_vowel_yod_dagesh(c)
        || is_apf_consonant_vowel_final_kaf_dagesh(c)
        || is_apf_consonant_vowel_kaf_dagesh(c)
        || is_apf_consonant_vowel_lamed_dagesh(c)
        || is_apf_consonant_vowel_mem_dagesh(c)
        || is_apf_consonant_vowel_nun_dagesh(c)
        || is_apf_consonant_vowel_samekh_dagesh(c)
        || is_apf_consonant_vowel_final_pe_dagesh(c)
        || is_apf_consonant_vowel_pe_dagesh(c)
        || is_apf_consonant_vowel_tsadi_dagesh(c)
        || is_apf_consonant_vowel_qof_dagesh(c)
        || is_apf_consonant_vowel_resh_dagesh(c)
        || is_apf_consonant_vowel_shin_dagesh(c)
        || is_apf_consonant_vowel_tav_dagesh(c)
        || is_apf_consonant_vowel_vav_holam(c)
        || is_apf_consonant_vowel_bet_rafe(c)
        || is_apf_consonant_vowel_kaf_rafe(c)
        || is_apf_consonant_vowel_pe_rafe(c)
}

/// Checks whether `c` is the Judeo-Spanish varika (U+FB1E).
pub fn is_apf_point_reading_sign(c: char) -> (r: bool)
    ensures
        r == apf_point_reading_sign(c as u32),
{
    is_apf_point_judeo_spanish_varika(c)
}

/// Checks whether `c` is a ligature of the presentation forms (U+FB1F, U+FB4F).
pub fn is_apf_ligature(c: char) -> (r: bool)
    ensures
        r == apf_ligature(c as u32),
{
    is_apf_ligature_yiddisch_yod_yod_patah(c) || is_apf_ligature_alef_lamed(c)
}

/// Checks whether `c` is an alternative form (U+FB20, U+FB29).
pub fn is_apf_alternative(c: char) -> (r: bool)
    ensures
        r == apf_alternative(c as u32),
{
    is_apf_consonant_alternative_ayin(c) || is_apf_letter_alternative_plus_sign(c)
}

/// Checks whether `c` is a wide consonant (U+FB21 ..= U+FB28).
pub fn is_apf_consonant_wide(c: char) -> (r: bool)
    ensures
        r == apf_consonant_wide(c as u32),
{
    is_apf_consonant_wide_alef(c)
        || is_apf_consonant_wide_dalet(c)
        || is_apf_consonant_wide_he(c)
        || is_apf_consonant_wide_kaf(c)
        || is_apf_consonant_wide_lamed(c)
        || is_apf_consonant_wide_final_mem(c)
        || is_apf_consonant_wide_resh(c)
        || is_apf_consonant_wide_tav(c)
}

} // verus!
