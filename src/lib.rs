//! Membership predicates for the Hebrew script of Unicode.
//!
//! The crate answers, for a single `char`, whether it belongs to the Hebrew
//! script, to one of its two blocks ("Hebrew", U+0590 ..= U+05FF, and the
//! Hebrew part of "Alphabetic Presentation Forms", U+FB1D ..= U+FB4F), or to
//! one of their categories down to individual named characters.
//!
//! Every predicate is total and pure; what each one answers is stated over
//! the category table of [`taxonomy`], and the laws relating the categories
//! are proved in [`laws`].

pub mod taxonomy;
pub mod unicode_block_hbr;
pub mod unicode_block_apf;
pub mod collections_api;
pub mod function_api;
pub mod trait_def;
pub mod trait_api;
pub mod laws;
mod trait_impl;

pub use self::collections_api::{
    is_script_hbr, is_script_hbr_consonant, is_script_hbr_point, is_script_hbr_point_reading_sign,
    is_script_hbr_ligature, is_script_hbr_ligature_yiddisch, is_hbr_block, is_hbr_accent,
    is_hbr_mark, is_hbr_point, is_hbr_point_vowel, is_hbr_point_semi_vowel,
    is_hbr_point_reading_sign, is_hbr_punctuation, is_hbr_consonant, is_hbr_consonant_normal,
    is_hbr_consonant_final, is_hbr_ligature_yiddish, is_apf_block, is_apf_consonant,
    is_apf_consonant_with_vowel, is_apf_point_reading_sign, is_apf_ligature, is_apf_alternative,
    is_apf_consonant_wide,
};
pub use self::unicode_block_apf::{
    is_apf_consonant_wide_alef, is_apf_consonant_wide_dalet, is_apf_consonant_wide_he,
    is_apf_consonant_wide_kaf, is_apf_consonant_wide_lamed, is_apf_consonant_wide_final_mem,
    is_apf_consonant_wide_resh, is_apf_consonant_wide_tav, is_apf_consonant_vowel_yod_hiriq,
    is_apf_consonant_vowel_shin_shindot, is_apf_consonant_vowel_shin_sindot,
    is_apf_consonant_vowel_shin_dagesh_shindot, is_apf_consonant_vowel_shin_dagesh_sindot,
    is_apf_consonant_vowel_alef_patah, is_apf_consonant_vowel_alef_qamats,
    is_apf_consonant_vowel_alef_mapiq, is_apf_consonant_vowel_bet_dagesh,
    is_apf_consonant_vowel_gimmel_dagesh, is_apf_consonant_vowel_dalet_dagesh,
    is_apf_consonant_vowel_he_mapiq, is_apf_consonant_vowel_vav_dagesh,
    is_apf_consonant_vowel_zayin_dagesh, is_apf_consonant_vowel_tet_dagesh,
    is_apf_consonant_vowel_yod_dagesh, is_apf_consonant_vowel_final_kaf_dagesh,
    is_apf_consonant_vowel_kaf_dagesh, is_apf_consonant_vowel_lamed_dagesh,
    is_apf_consonant_vowel_mem_dagesh, is_apf_consonant_vowel_nun_dagesh,
    is_apf_consonant_vowel_samekh_dagesh, is_apf_consonant_vowel_final_pe_dagesh,
    is_apf_consonant_vowel_pe_dagesh, is_apf_consonant_vowel_tsadi_dagesh,
    is_apf_consonant_vowel_qof_dagesh, is_apf_consonant_vowel_resh_dagesh,
    is_apf_consonant_vowel_shin_dagesh, is_apf_consonant_vowel_tav_dagesh,
    is_apf_consonant_vowel_vav_holam, is_apf_consonant_vowel_bet_rafe,
    is_apf_consonant_vowel_kaf_rafe, is_apf_consonant_vowel_pe_rafe,
    is_apf_consonant_alternative_ayin, is_apf_letter_alternative_plus_sign,
    is_apf_ligature_yiddisch_yod_yod_patah, is_apf_ligature_alef_lamed,
    is_apf_point_judeo_spanish_varika,
};
pub use self::unicode_block_hbr::{
    is_hbr_consonant_alef, is_hbr_consonant_bet, is_hbr_consonant_gimel, is_hbr_consonant_dalet,
    is_hbr_consonant_he, is_hbr_consonant_vav, is_hbr_consonant_zayin, is_hbr_consonant_het,
    is_hbr_consonant_tet, is_hbr_consonant_yod, is_hbr_consonant_final_kaf, is_hbr_consonant_kaf,
    is_hbr_consonant_lamed, is_hbr_consonant_final_mem, is_hbr_consonant_mem,
    is_hbr_consonant_final_nun, is_hbr_consonant_nun, is_hbr_consonant_samekh,
    is_hbr_consonant_ayin, is_hbr_consonant_final_pe, is_hbr_consonant_pe,
    is_hbr_consonant_final_tsadi, is_hbr_consonant_tsadi, is_hbr_consonant_qof,
    is_hbr_consonant_resh, is_hbr_consonant_shin, is_hbr_consonant_tav, is_hbr_point_sheva,
    is_hbr_point_hataf_segol, is_hbr_point_hataf_patah, is_hbr_point_hataf_qamats,
    is_hbr_point_hiriq, is_hbr_point_tsere, is_hbr_point_segol, is_hbr_point_patah,
    is_hbr_point_qamats, is_hbr_point_holam, is_hbr_point_holam_haser_for_vav, is_hbr_point_qubuts,
    is_hbr_point_dagesh_or_mapiq, is_hbr_point_meteg, is_hbr_point_rafe, is_hbr_point_shin_dot,
    is_hbr_point_sin_dot, is_hbr_point_qamats_qatan, is_hbr_accent_etnahta, is_hbr_accent_segol,
    is_hbr_accent_shalshelet, is_hbr_accent_zaqef_qatan, is_hbr_accent_zaqef_gadol,
    is_hbr_accent_tipeha, is_hbr_accent_revia, is_hbr_accent_zarqa, is_hbr_accent_pashta,
    is_hbr_accent_yetiv, is_hbr_accent_tevir, is_hbr_accent_geresh, is_hbr_accent_geresh_muqdam,
    is_hbr_accent_gershayim, is_hbr_accent_qarney_para, is_hbr_accent_telisha_gedola,
    is_hbr_accent_pazer, is_hbr_accent_atnah_hafukh, is_hbr_accent_munah, is_hbr_accent_mahapakh,
    is_hbr_accent_merkha, is_hbr_accent_merkha_kefula, is_hbr_accent_darga, is_hbr_accent_qadma,
    is_hbr_accent_telisha_qetana, is_hbr_accent_yerah_ben_yomo, is_hbr_accent_ole,
    is_hbr_accent_iluy, is_hbr_accent_dehi, is_hbr_accent_zinor, is_hbr_mark_masora_circle,
    is_hbr_mark_upper_dot, is_hbr_mark_lower_dot, is_hbr_punctuation_maqaf,
    is_hbr_punctuation_paseq, is_hbr_punctuation_sof_pasuq, is_hbr_punctuation_nun_hafukha,
    is_hbr_punctuation_geresh, is_hbr_punctuation_gershayim, is_hbr_yod_triangle,
    is_hbr_ligature_yiddisch_double_vav, is_hbr_ligature_yiddisch_vav_yod,
    is_hbr_ligature_yiddisch_double_yod,
};
pub use self::trait_def::HebrewUnicodeScript;
