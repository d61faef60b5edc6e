//! Method-call form of the predicates of the crate root, for `char`.
use vstd::prelude::*;
use crate::taxonomy::{
    apf_alternative, apf_block, apf_consonant_wide, apf_consonant_with_vowel, apf_ligature,
    apf_point_reading_sign, hbr_accent, hbr_block, hbr_consonant, hbr_consonant_final,
    hbr_consonant_normal, hbr_ligature_yiddish, hbr_mark, hbr_point, hbr_point_reading_sign,
    hbr_point_semi_vowel, hbr_point_vowel, hbr_punctuation, script_hbr,
};

verus! {

/// The predicates of the crate root as methods: `c.is_hbr_consonant()` answers
/// as `is_hbr_consonant(c)` does. Implemented for `char`.
pub trait HebrewUnicodeScript {
    /// The code point that the predicates classify.
    spec fn code_point(&self) -> u32;

    /// Same answer as [`crate::is_script_hbr`].
    fn is_script_hbr(&self) -> (r: bool)
        ensures
            r == script_hbr(self.code_point()),
    ;

    /// Same answer as [`crate::is_script_hbr_point`].
    fn is_script_hbr_point(&self) -> (r: bool)
        ensures
            r == (hbr_point(self.code_point()) || apf_point_reading_sign(self.code_point())),
    ;

    /// Same answer as [`crate::is_script_hbr_point_reading_sign`].
    fn is_script_hbr_point_reading_sign(&self) -> (r: bool)
        ensures
            r == (hbr_point_reading_sign(self.code_point())
                || apf_point_reading_sign(self.code_point())),
    ;

    /// Same answer as [`crate::is_script_hbr_consonant`].
    fn is_script_hbr_consonant(&self) -> (r: bool)
        ensures
            r == (hbr_consonant(self.code_point()) || apf_consonant_wide(self.code_point())
                || self.code_point() == 0xFB20),
    ;

    /// Same answer as [`crate::is_script_hbr_ligature_yiddisch`].
    fn is_script_hbr_ligature_yiddisch(&self) -> (r: bool)
        ensures
            r == (hbr_ligature_yiddish(self.code_point()) || self.code_point() == 0xFB1F),
    ;

    /// Same answer as [`crate::is_script_hbr_ligature`].
    fn is_script_hbr_ligature(&self) -> (r: bool)
        ensures
            r == (hbr_ligature_yiddish(self.code_point()) || apf_ligature(self.code_point())),
    ;

    /// Same answer as [`crate::is_hbr_block`].
    fn is_hbr_block(&self) -> (r: bool)
        ensures
            r == hbr_block(self.code_point()),
    ;

    /// Same answer as [`crate::is_hbr_accent`].
    fn is_hbr_accent(&self) -> (r: bool)
        ensures
            r == hbr_accent(self.code_point()),
    ;

    /// Same answer as [`crate::is_hbr_mark`].
    fn is_hbr_mark(&self) -> (r: bool)
        ensures
            r == hbr_mark(self.code_point()),
    ;

    /// Same answer as [`crate::is_hbr_point`].
    fn is_hbr_point(&self) -> (r: bool)
        ensures
            r == hbr_point(self.code_point()),
    ;

    /// Same answer as [`crate::is_hbr_point_vowel`].
    fn is_hbr_point_vowel(&self) -> (r: bool)
        ensures
            r == hbr_point_vowel(self.code_point()),
    ;

    /// Same answer as [`crate::is_hbr_point_semi_vowel`].
    fn is_hbr_point_semi_vowel(&self) -> (r: bool)
        ensures
            r == hbr_point_semi_vowel(self.code_point()),
    ;

    /// Same answer as [`crate::is_hbr_point_reading_sign`].
    fn is_hbr_point_reading_sign(&self) -> (r: bool)
        ensures
            r == hbr_point_reading_sign(self.code_point()),
    ;

    /// Same answer as [`crate::is_hbr_punctuation`].
    fn is_hbr_punctuation(&self) -> (r: bool)
        ensures
            r == hbr_punctuation(self.code_point()),
    ;

    /// Same answer as [`crate::is_hbr_consonant`].
    fn is_hbr_consonant(&self) -> (r: bool)
        ensures
            r == hbr_consonant(self.code_point()),
    ;

    /// Same answer as [`crate::is_hbr_consonant_normal`].
    fn is_hbr_consonant_normal(&self) -> (r: bool)
        ensures
            r == hbr_consonant_normal(self.code_point()),
    ;

    /// Same answer as [`crate::is_hbr_consonant_final`].
    fn is_hbr_consonant_final(&self) -> (r: bool)
        ensures
            r == hbr_consonant_final(self.code_point()),
    ;

    /// Same answer as [`crate::is_hbr_ligature_yiddish`].
    fn is_hbr_ligature_yiddish(&self) -> (r: bool)
        ensures
            r == hbr_ligature_yiddish(self.code_point()),
    ;

    /// Same answer as [`crate::is_apf_block`].
    fn is_apf_block(&self) -> (r: bool)
        ensures
            r == apf_block(self.code_point()),
    ;

    /// Same answer as [`crate::is_apf_consonant`].
    fn is_apf_consonant(&self) -> (r: bool)
        ensures
            r == (apf_consonant_wide(self.code_point()) || self.code_point() == 0xFB20),
    ;

    /// Same answer as [`crate::is_apf_consonant_with_vowel`].
    fn is_apf_consonant_with_vowel(&self) -> (r: bool)
        ensures
            r == apf_consonant_with_vowel(self.code_point()),
    ;

    /// Same answer as [`crate::is_apf_point_reading_sign`].
    fn is_apf_point_reading_sign(&self) -> (r: bool)
        ensures
            r == apf_point_reading_sign(self.code_point()),
    ;

    /// Same answer as [`crate::is_apf_ligature`].
    fn is_apf_ligature(&self) -> (r: bool)
        ensures
            r == apf_ligature(self.code_point()),
    ;

    /// Same answer as [`crate::is_apf_alternative`].
    fn is_apf_alternative(&self) -> (r: bool)
        ensures
            r == apf_alternative(self.code_point()),
    ;

    /// Same answer as [`crate::is_apf_consonant_wide`].
    fn is_apf_consonant_wide(&self) -> (r: bool)
        ensures
            r == apf_consonant_wide(self.code_point()),
    ;

    /// Same answer as [`crate::is_hbr_consonant_alef`].
    fn is_hbr_consonant_alef(&self) -> (r: bool)
        ensures
            r == (self.code_point() == 0x05D0),
    ;

    /// Same answer as [`crate::is_hbr_consonant_bet`].
    fn is_hbr_consonant_bet(&self) -> (r: bool)
        ensures
            r == (self.code_point() == 0x05D1),
    ;

    /// Same answer as [`crate::is_hbr_consonant_gimel`].
    fn is_hbr_consonant_gimel(&self) -> (r: bool)
        ensures
            r == (self.code_point() == 0x05D2),
    ;

    /// Same answer as [`crate::is_hbr_consonant_dalet`].
    fn is_hbr_consonant_dalet(&self) -> (r: bool)
        ensures
            r == (self.code_point() == 0x05D3),
    ;

    /// Same answer as [`crate::is_hbr_consonant_he`].
    fn is_hbr_consonant_he(&self) -> (r: bool)
        ensures
            r == (self.code_point() == 0x05D4),
    ;

    /// Same answer as [`crate::is_hbr_consonant_vav`].
    fn is_hbr_consonant_vav(&self) -> (r: bool)
        ensures
            r == (self.code_point() == 0x05D5),
    ;

    /// Same answer as [`crate::is_hbr_consonant_zayin`].
    fn is_hbr_consonant_zayin(&self) -> (r: bool)
        ensures
            r == (self.code_point() == 0x05D6),
    ;

    /// Same answer as [`crate::is_hbr_consonant_het`].
    fn is_hbr_consonant_het(&self) -> (r: bool)
        ensures
            r == (self.code_point() == 0x05D7),
    ;

    /// Same answer as [`crate::is_hbr_consonant_tet`].
    fn is_hbr_consonant_tet(&self) -> (r: bool)
        ensures
            r == (self.code_point() == 0x05D8),
    ;

    /// Same answer as [`crate::is_hbr_consonant_yod`].
    fn is_hbr_consonant_yod(&self) -> (r: bool)
        ensures
            r == (self.code_point() == 0x05D9),
    ;

    /// Same answer as [`crate::is_hbr_consonant_final_kaf`].
    fn is_hbr_consonant_final_kaf(&self) -> (r: bool)
        ensures
            r == (self.code_point() == 0x05DA),
    ;

    /// Same answer as [`crate::is_hbr_consonant_kaf`].
    fn is_hbr_consonant_kaf(&self) -> (r: bool)
        ensures
            r == (self.code_point() == 0x05DB),
    ;

    /// Same answer as [`crate::is_hbr_consonant_lamed`].
    fn is_hbr_consonant_lamed(&self) -> (r: bool)
        ensures
            r == (self.code_point() == 0x05DC),
    ;

    /// Same answer as [`crate::is_hbr_consonant_final_mem`].
    fn is_hbr_consonant_final_mem(&self) -> (r: bool)
        ensures
            r == (self.code_point() == 0x05DD),
    ;

    /// Same answer as [`crate::is_hbr_consonant_mem`].
    fn is_hbr_consonant_mem(&self) -> (r: bool)
        ensures
            r == (self.code_point() == 0x05DE),
    ;

    /// Same answer as [`crate::is_hbr_consonant_final_nun`].
    fn is_hbr_consonant_final_nun(&self) -> (r: bool)
        ensures
            r == (self.code_point() == 0x05DF),
    ;

    /// Same answer as [`crate::is_hbr_consonant_nun`].
    fn is_hbr_consonant_nun(&self) -> (r: bool)
        ensures
            r == (self.code_point() == 0x05E0),
    ;

    /// Same answer as [`crate::is_hbr_consonant_samekh`].
    fn is_hbr_consonant_samekh(&self) -> (r: bool)
        ensures
            r == (self.code_point() == 0x05E1),
    ;

    /// Same answer as [`crate::is_hbr_consonant_ayin`].
    fn is_hbr_consonant_ayin(&self) -> (r: bool)
        ensures
            r == (self.code_point() == 0x05E2),
    ;

    /// Same answer as [`crate::is_hbr_consonant_final_pe`].
    fn is_hbr_consonant_final_pe(&self) -> (r: bool)
        ensures
            r == (self.code_point() == 0x05E3),
    ;

    /// Same answer as [`crate::is_hbr_consonant_pe`].
    fn is_hbr_consonant_pe(&self) -> (r: bool)
        ensures
            r == (self.code_point() == 0x05E4),
    ;

    /// Same answer as [`crate::is_hbr_consonant_final_tsadi`].
    fn is_hbr_consonant_final_tsadi(&self) -> (r: bool)
        ensures
            r == (self.code_point() == 0x05E5),
    ;

    /// Same answer as [`crate::is_hbr_consonant_tsadi`].
    fn is_hbr_consonant_tsadi(&self) -> (r: bool)
        ensures
            r == (self.code_point() == 0x05E6),
    ;

    /// Same answer as [`crate::is_hbr_consonant_qof`].
    fn is_hbr_consonant_qof(&self) -> (r: bool)
        ensures
            r == (self.code_point() == 0x05E7),
    ;

    /// Same answer as [`crate::is_hbr_consonant_resh`].
    fn is_hbr_consonant_resh(&self) -> (r: bool)
        ensures
            r == (self.code_point() == 0x05E8),
    ;

    /// Same answer as [`crate::is_hbr_consonant_shin`].
    fn is_hbr_consonant_shin(&self) -> (r: bool)
        ensures
            r == (self.code_point() == 0x05E9),
    ;

    /// Same answer as [`crate::is_hbr_consonant_tav`].
    fn is_hbr_consonant_tav(&self) -> (r: bool)
        ensures
            r == (self.code_point() == 0x05EA),
    ;

    /// Same answer as [`crate::is_hbr_point_sheva`].
    fn is_hbr_point_sheva(&self) -> (r: bool)
        ensures
            r == (self.code_point() == 0x05B0),
    ;

    /// Same answer as [`crate::is_hbr_point_hataf_segol`].
    fn is_hbr_point_hataf_segol(&self) -> (r: bool)
        ensures
            r == (self.code_point() == 0x05B1),
    ;

    /// Same answer as [`crate::is_hbr_point_hataf_patah`].
    fn is_hbr_point_hataf_patah(&self) -> (r: bool)
        ensures
            r == (self.code_point() == 0x05B2),
    ;

    /// Same answer as [`crate::is_hbr_point_hataf_qamats`].
    fn is_hbr_point_hataf_qamats(&self) -> (r: bool)
        ensures
            r == (self.code_point() == 0x05B3),
    ;

    /// Same answer as [`crate::is_hbr_point_hiriq`].
    fn is_hbr_point_hiriq(&self) -> (r: bool)
        ensures
            r == (self.code_point() == 0x05B4),
    ;

    /// Same answer as [`crate::is_hbr_point_tsere`].
    fn is_hbr_point_tsere(&self) -> (r: bool)
        ensures
            r == (self.code_point() == 0x05B5),
    ;

    /// Same answer as [`crate::is_hbr_point_segol`].
    fn is_hbr_point_segol(&self) -> (r: bool)
        ensures
            r == (self.code_point() == 0x05B6),
    ;

    /// Same answer as [`crate::is_hbr_point_patah`].
    fn is_hbr_point_patah(&self) -> (r: bool)
        ensures
            r == (self.code_point() == 0x05B7),
    ;

    /// Same answer as [`crate::is_hbr_point_qamats`].
    fn is_hbr_point_qamats(&self) -> (r: bool)
        ensures
            r == (self.code_point() == 0x05B8),
    ;

    /// Same answer as [`crate::is_hbr_point_holam`].
    fn is_hbr_point_holam(&self) -> (r: bool)
        ensures
            r == (self.code_point() == 0x05B9),
    ;

    /// Same answer as [`crate::is_hbr_point_holam_haser_for_vav`].
    fn is_hbr_point_holam_haser_for_vav(&self) -> (r: bool)
        ensures
            r == (self.code_point() == 0x05BA),
    ;

    /// Same answer as [`crate::is_hbr_point_qubuts`].
    fn is_hbr_point_qubuts(&self) -> (r: bool)
        ensures
            r == (self.code_point() == 0x05BB),
    ;

    /// Same answer as [`crate::is_hbr_point_dagesh_or_mapiq`].
    fn is_hbr_point_dagesh_or_mapiq(&self) -> (r: bool)
        ensures
            r == (self.code_point() == 0x05BC),
    ;

    /// Same answer as [`crate::is_hbr_point_meteg`].
    fn is_hbr_point_meteg(&self) -> (r: bool)
        ensures
            r == (self.code_point() == 0x05BD),
    ;

    /// Same answer as [`crate::is_hbr_point_rafe`].
    fn is_hbr_point_rafe(&self) -> (r: bool)
        ensures
            r == (self.code_point() == 0x05BF),
    ;

    /// Same answer as [`crate::is_hbr_point_shin_dot`].
    fn is_hbr_point_shin_dot(&self) -> (r: bool)
        ensures
            r == (self.code_point() == 0x05C1),
    ;

    /// Same answer as [`crate::is_hbr_point_sin_dot`].
    fn is_hbr_point_sin_dot(&self) -> (r: bool)
        ensures
            r == (self.code_point() == 0x05C2),
    ;

    /// Same answer as [`crate::is_hbr_point_qamats_qatan`].
    fn is_hbr_point_qamats_qatan(&self) -> (r: bool)
        ensures
            r == (self.code_point() == 0x05C7),
    ;

    /// Same answer as [`crate::is_hbr_accent_etnahta`].
    fn is_hbr_accent_etnahta(&self) -> (r: bool)
        ensures
            r == (self.code_point() == 0x0591),
    ;

    /// Same answer as [`crate::is_hbr_accent_segol`].
    fn is_hbr_accent_segol(&self) -> (r: bool)
        ensures
            r == (self.code_point() == 0x0592),
    ;

    /// Same answer as [`crate::is_hbr_accent_shalshelet`].
    fn is_hbr_accent_shalshelet(&self) -> (r: bool)
        ensures
            r == (self.code_point() == 0x0593),
    ;

    /// Same answer as [`crate::is_hbr_accent_zaqef_qatan`].
    fn is_hbr_accent_zaqef_qatan(&self) -> (r: bool)
        ensures
            r == (self.code_point() == 0x0594),
    ;

    /// Same answer as [`crate::is_hbr_accent_zaqef_gadol`].
    fn is_hbr_accent_zaqef_gadol(&self) -> (r: bool)
        ensures
            r == (self.code_point() == 0x0595),
    ;

    /// Same answer as [`crate::is_hbr_accent_tipeha`].
    fn is_hbr_accent_tipeha(&self) -> (r: bool)
        ensures
            r == (self.code_point() == 0x0596),
    ;

    /// Same answer as [`crate::is_hbr_accent_revia`].
    fn is_hbr_accent_revia(&self) -> (r: bool)
        ensures
            r == (self.code_point() == 0x0597),
    ;

    /// Same answer as [`crate::is_hbr_accent_zarqa`].
    fn is_hbr_accent_zarqa(&self) -> (r: bool)
        ensures
            r == (self.code_point() == 0x0598),
    ;

    /// Same answer as [`crate::is_hbr_accent_pashta`].
    fn is_hbr_accent_pashta(&self) -> (r: bool)
        ensures
            r == (self.code_point() == 0x0599),
    ;

    /// Same answer as [`crate::is_hbr_accent_yetiv`].
    fn is_hbr_accent_yetiv(&self) -> (r: bool)
        ensures
            r == (self.code_point() == 0x059A),
    ;

    /// Same answer as [`crate::is_hbr_accent_tevir`].
    fn is_hbr_accent_tevir(&self) -> (r: bool)
        ensures
            r == (self.code_point() == 0x059B),
    ;

    /// Same answer as [`crate::is_hbr_accent_geresh`].
    fn is_hbr_accent_geresh(&self) -> (r: bool)
        ensures
            r == (self.code_point() == 0x059C),
    ;

    /// Same answer as [`crate::is_hbr_accent_geresh_muqdam`].
    fn is_hbr_accent_geresh_muqdam(&self) -> (r: bool)
        ensures
            r == (self.code_point() == 0x059D),
    ;

    /// Same answer as [`crate::is_hbr_accent_gershayim`].
    fn is_hbr_accent_gershayim(&self) -> (r: bool)
        ensures
            r == (self.code_point() == 0x059E),
    ;

    /// Same answer as [`crate::is_hbr_accent_qarney_para`].
    fn is_hbr_accent_qarney_para(&self) -> (r: bool)
        ensures
            r == (self.code_point() == 0x059F),
    ;

    /// Same answer as [`crate::is_hbr_accent_telisha_gedola`].
    fn is_hbr_accent_telisha_gedola(&self) -> (r: bool)
        ensures
            r == (self.code_point() == 0x05A0),
    ;

    /// Same answer as [`crate::is_hbr_accent_pazer`].
    fn is_hbr_accent_pazer(&self) -> (r: bool)
        ensures
            r == (self.code_point() == 0x05A1),
    ;

    /// Same answer as [`crate::is_hbr_accent_atnah_hafukh`].
    fn is_hbr_accent_atnah_hafukh(&self) -> (r: bool)
        ensures
            r == (self.code_point() == 0x05A2),
    ;

    /// Same answer as [`crate::is_hbr_accent_munah`].
    fn is_hbr_accent_munah(&self) -> (r: bool)
        ensures
            r == (self.code_point() == 0x05A3),
    ;

    /// Same answer as [`crate::is_hbr_accent_mahapakh`].
    fn is_hbr_accent_mahapakh(&self) -> (r: bool)
        ensures
            r == (self.code_point() == 0x05A4),
    ;

    /// Same answer as [`crate::is_hbr_accent_merkha`].
    fn is_hbr_accent_merkha(&self) -> (r: bool)
        ensures
            r == (self.code_point() == 0x05A5),
    ;

    /// Same answer as [`crate::is_hbr_accent_merkha_kefula`].
    fn is_hbr_accent_merkha_kefula(&self) -> (r: bool)
        ensures
            r == (self.code_point() == 0x05A6),
    ;

    /// Same answer as [`crate::is_hbr_accent_darga`].
    fn is_hbr_accent_darga(&self) -> (r: bool)
        ensures
            r == (self.code_point() == 0x05A7),
    ;

    /// Same answer as [`crate::is_hbr_accent_qadma`].
    fn is_hbr_accent_qadma(&self) -> (r: bool)
        ensures
            r == (self.code_point() == 0x05A8),
    ;

    /// Same answer as [`crate::is_hbr_accent_telisha_qetana`].
    fn is_hbr_accent_telisha_qetana(&self) -> (r: bool)
        ensures
            r == (self.code_point() == 0x05A9),
    ;

    /// Same answer as [`crate::is_hbr_accent_yerah_ben_yomo`].
    fn is_hbr_accent_yerah_ben_yomo(&self) -> (r: bool)
        ensures
            r == (self.code_point() == 0x05AA),
    ;

    /// Same answer as [`crate::is_hbr_accent_ole`].
    fn is_hbr_accent_ole(&self) -> (r: bool)
        ensures
            r == (self.code_point() == 0x05AB),
    ;

    /// Same answer as [`crate::is_hbr_accent_iluy`].
    fn is_hbr_accent_iluy(&self) -> (r: bool)
        ensures
            r == (self.code_point() == 0x05AC),
    ;

    /// Same answer as [`crate::is_hbr_accent_dehi`].
    fn is_hbr_accent_dehi(&self) -> (r: bool)
        ensures
            r == (self.code_point() == 0x05AD),
    ;

    /// Same answer as [`crate::is_hbr_accent_zinor`].
    fn is_hbr_accent_zinor(&self) -> (r: bool)
        ensures
            r == (self.code_point() == 0x05AE),
    ;

    /// Same answer as [`crate::is_hbr_mark_masora_circle`].
    fn is_hbr_mark_masora_circle(&self) -> (r: bool)
        ensures
            r == (self.code_point() == 0x05AF),
    ;

    /// Same answer as [`crate::is_hbr_mark_upper_dot`].
    fn is_hbr_mark_upper_dot(&self) -> (r: bool)
        ensures
            r == (self.code_point() == 0x05C4),
    ;

    /// Same answer as [`crate::is_hbr_mark_lower_dot`].
    fn is_hbr_mark_lower_dot(&self) -> (r: bool)
        ensures
            r == (self.code_point() == 0x05C5),
    ;

    /// Same answer as [`crate::is_hbr_punctuation_maqaf`].
    fn is_hbr_punctuation_maqaf(&self) -> (r: bool)
        ensures
            r == (self.code_point() == 0x05BE),
    ;

    /// Same answer as [`crate::is_hbr_punctuation_paseq`].
    fn is_hbr_punctuation_paseq(&self) -> (r: bool)
        ensures
            r == (self.code_point() == 0x05C0),
    ;

    /// Same answer as [`crate::is_hbr_punctuation_sof_pasuq`].
    fn is_hbr_punctuation_sof_pasuq(&self) -> (r: bool)
        ensures
            r == (self.code_point() == 0x05C3),
    ;

    /// Same answer as [`crate::is_hbr_punctuation_nun_hafukha`].
    fn is_hbr_punctuation_nun_hafukha(&self) -> (r: bool)
        ensures
            r == (self.code_point() == 0x05C6),
    ;

    /// Same answer as [`crate::is_hbr_punctuation_geresh`].
    fn is_hbr_punctuation_geresh(&self) -> (r: bool)
        ensures
            r == (self.code_point() == 0x05F3),
    ;

    /// Same answer as [`crate::is_hbr_punctuation_gershayim`].
    fn is_hbr_punctuation_gershayim(&self) -> (r: bool)
        ensures
            r == (self.code_point() == 0x05F4),
    ;

    /// Same answer as [`crate::is_hbr_yod_triangle`].
    fn is_hbr_yod_triangle(&self) -> (r: bool)
        ensures
            r == (self.code_point() == 0x05EF),
    ;

    /// Same answer as [`crate::is_hbr_ligature_yiddisch_double_vav`].
    fn is_hbr_ligature_yiddisch_double_vav(&self) -> (r: bool)
        ensures
            r == (self.code_point() == 0x05F0),
    ;

    /// Same answer as [`crate::is_hbr_ligature_yiddisch_vav_yod`].
    fn is_hbr_ligature_yiddisch_vav_yod(&self) -> (r: bool)
        ensures
            r == (self.code_point() == 0x05F1),
    ;

    /// Same answer as [`crate::is_hbr_ligature_yiddisch_double_yod`].
    fn is_hbr_ligature_yiddisch_double_yod(&self) -> (r: bool)
        ensures
            r == (self.code_point() == 0x05F2),
    ;

    /// Same answer as [`crate::is_apf_point_judeo_spanish_varika`].
    fn is_apf_point_judeo_spanish_varika(&self) -> (r: bool)
        ensures
            r == (self.code_point() == 0xFB1E),
    ;

    /// Same answer as [`crate::is_apf_consonant_vowel_yod_hiriq`].
    fn is_apf_consonant_vowel_yod_hiriq(&self) -> (r: bool)
        ensures
            r == (self.code_point() == 0xFB1D),
    ;

    /// Same answer as [`crate::is_apf_consonant_vowel_shin_shindot`].
    fn is_apf_consonant_vowel_shin_shindot(&self) -> (r: bool)
        ensures
            r == (self.code_point() == 0xFB2A),
    ;

    /// Same answer as [`crate::is_apf_consonant_vowel_shin_sindot`].
    fn is_apf_consonant_vowel_shin_sindot(&self) -> (r: bool)
        ensures
            r == (self.code_point() == 0xFB2B),
    ;

    /// Same answer as [`crate::is_apf_consonant_vowel_shin_dagesh_shindot`].
    fn is_apf_consonant_vowel_shin_dagesh_shindot(&self) -> (r: bool)
        ensures
            r == (self.code_point() == 0xFB2C),
    ;

    /// Same answer as [`crate::is_apf_consonant_vowel_shin_dagesh_sindot`].
    fn is_apf_consonant_vowel_shin_dagesh_sindot(&self) -> (r: bool)
        ensures
            r == (self.code_point() == 0xFB2D),
    ;

    /// Same answer as [`crate::is_apf_consonant_vowel_alef_patah`].
    fn is_apf_consonant_vowel_alef_patah(&self) -> (r: bool)
        ensures
            r == (self.code_point() == 0xFB2E),
    ;

    /// Same answer as [`crate::is_apf_consonant_vowel_alef_qamats`].
    fn is_apf_consonant_vowel_alef_qamats(&self) -> (r: bool)
        ensures
            r == (self.code_point() == 0xFB2F),
    ;

    /// Same answer as [`crate::is_apf_consonant_vowel_alef_mapiq`].
    fn is_apf_consonant_vowel_alef_mapiq(&self) -> (r: bool)
        ensures
            r == (self.code_point() == 0xFB30),
    ;

    /// Same answer as [`crate::is_apf_consonant_vowel_bet_dagesh`].
    fn is_apf_consonant_vowel_bet_dagesh(&self) -> (r: bool)
        ensures
            r == (self.code_point() == 0xFB31),
    ;

    /// Same answer as [`crate::is_apf_consonant_vowel_gimmel_dagesh`].
    fn is_apf_consonant_vowel_gimmel_dagesh(&self) -> (r: bool)
        ensures
            r == (self.code_point() == 0xFB32),
    ;

    /// Same answer as [`crate::is_apf_consonant_vowel_dalet_dagesh`].
    fn is_apf_consonant_vowel_dalet_dagesh(&self) -> (r: bool)
        ensures
            r == (self.code_point() == 0xFB33),
    ;

    /// Same answer as [`crate::is_apf_consonant_vowel_he_mapiq`].
    fn is_apf_consonant_vowel_he_mapiq(&self) -> (r: bool)
        ensures
            r == (self.code_point() == 0xFB34),
    ;

    /// Same answer as [`crate::is_apf_consonant_vowel_vav_dagesh`].
    fn is_apf_consonant_vowel_vav_dagesh(&self) -> (r: bool)
        ensures
            r == (self.code_point() == 0xFB35),
    ;

    /// Same answer as [`crate::is_apf_consonant_vowel_zayin_dagesh`].
    fn is_apf_consonant_vowel_zayin_dagesh(&self) -> (r: bool)
        ensures
            r == (self.code_point() == 0xFB36),
    ;

    /// Same answer as [`crate::is_apf_consonant_vowel_tet_dagesh`].
    fn is_apf_consonant_vowel_tet_dagesh(&self) -> (r: bool)
        ensures
            r == (self.code_point() == 0xFB38),
    ;

    /// Same answer as [`crate::is_apf_consonant_vowel_yod_dagesh`].
    fn is_apf_consonant_vowel_yod_dagesh(&self) -> (r: bool)
        ensures
            r == (self.code_point() == 0xFB39),
    ;

    /// Same answer as [`crate::is_apf_consonant_vowel_final_kaf_dagesh`].
    fn is_apf_consonant_vowel_final_kaf_dagesh(&self) -> (r: bool)
        ensures
            r == (self.code_point() == 0xFB3A),
    ;

    /// Same answer as [`crate::is_apf_consonant_vowel_kaf_dagesh`].
    fn is_apf_consonant_vowel_kaf_dagesh(&self) -> (r: bool)
        ensures
            r == (self.code_point() == 0xFB3B),
    ;

    /// Same answer as [`crate::is_apf_consonant_vowel_lamed_dagesh`].
    fn is_apf_consonant_vowel_lamed_dagesh(&self) -> (r: bool)
        ensures
            r == (self.code_point() == 0xFB3C),
    ;

    /// Same answer as [`crate::is_apf_consonant_vowel_mem_dagesh`].
    fn is_apf_consonant_vowel_mem_dagesh(&self) -> (r: bool)
        ensures
            r == (self.code_point() == 0xFB3E),
    ;

    /// Same answer as [`crate::is_apf_consonant_vowel_nun_dagesh`].
    fn is_apf_consonant_vowel_nun_dagesh(&self) -> (r: bool)
        ensures
            r == (self.code_point() == 0xFB40),
    ;

    /// Same answer as [`crate::is_apf_consonant_vowel_samekh_dagesh`].
    fn is_apf_consonant_vowel_samekh_dagesh(&self) -> (r: bool)
        ensures
            r == (self.code_point() == 0xFB41),
    ;

    /// Same answer as [`crate::is_apf_consonant_vowel_final_pe_dagesh`].
    fn is_apf_consonant_vowel_final_pe_dagesh(&self) -> (r: bool)
        ensures
            r == (self.code_point() == 0xFB43),
    ;

    /// Same answer as [`crate::is_apf_consonant_vowel_pe_dagesh`].
    fn is_apf_consonant_vowel_pe_dagesh(&self) -> (r: bool)
        ensures
            r == (self.code_point() == 0xFB44),
    ;

    /// Same answer as [`crate::is_apf_consonant_vowel_tsadi_dagesh`].
    fn is_apf_consonant_vowel_tsadi_dagesh(&self) -> (r: bool)
        ensures
            r == (self.code_point() == 0xFB46),
    ;

    /// Same answer as [`crate::is_apf_consonant_vowel_qof_dagesh`].
    fn is_apf_consonant_vowel_qof_dagesh(&self) -> (r: bool)
        ensures
            r == (self.code_point() == 0xFB47),
    ;

    /// Same answer as [`crate::is_apf_consonant_vowel_resh_dagesh`].
    fn is_apf_consonant_vowel_resh_dagesh(&self) -> (r: bool)
        ensures
            r == (self.code_point() == 0xFB48),
    ;

    /// Same answer as [`crate::is_apf_consonant_vowel_shin_dagesh`].
    fn is_apf_consonant_vowel_shin_dagesh(&self) -> (r: bool)
        ensures
            r == (self.code_point() == 0xFB49),
    ;

    /// Same answer as [`crate::is_apf_consonant_vowel_tav_dagesh`].
    fn is_apf_consonant_vowel_tav_dagesh(&self) -> (r: bool)
        ensures
            r == (self.code_point() == 0xFB4A),
    ;

    /// Same answer as [`crate::is_apf_consonant_vowel_vav_holam`].
    fn is_apf_consonant_vowel_vav_holam(&self) -> (r: bool)
        ensures
            r == (self.code_point() == 0xFB4B),
    ;

    /// Same answer as [`crate::is_apf_consonant_vowel_bet_rafe`].
    fn is_apf_consonant_vowel_bet_rafe(&self) -> (r: bool)
        ensures
            r == (self.code_point() == 0xFB4C),
    ;

    /// Same answer as [`crate::is_apf_consonant_vowel_kaf_rafe`].
    fn is_apf_consonant_vowel_kaf_rafe(&self) -> (r: bool)
        ensures
            r == (self.code_point() == 0xFB4D),
    ;

    /// Same answer as [`crate::is_apf_consonant_vowel_pe_rafe`].
    fn is_apf_consonant_vowel_pe_rafe(&self) -> (r: bool)
        ensures
            r == (self.code_point() == 0xFB4E),
    ;

    /// Same answer as [`crate::is_apf_consonant_alternative_ayin`].
    fn is_apf_consonant_alternative_ayin(&self) -> (r: bool)
        ensures
            r == (self.code_point() == 0xFB20),
    ;

    /// Same answer as [`crate::is_apf_letter_alternative_plus_sign`].
    fn is_apf_letter_alternative_plus_sign(&self) -> (r: bool)
        ensures
            r == (self.code_point() == 0xFB29),
    ;

    /// Same answer as [`crate::is_apf_consonant_wide_alef`].
    fn is_apf_consonant_wide_alef(&self) -> (r: bool)
        ensures
            r == (self.code_point() == 0xFB21),
    ;

    /// Same answer as [`crate::is_apf_consonant_wide_dalet`].
    fn is_apf_consonant_wide_dalet(&self) -> (r: bool)
        ensures
            r == (self.code_point() == 0xFB22),
    ;

    /// Same answer as [`crate::is_apf_consonant_wide_he`].
    fn is_apf_consonant_wide_he(&self) -> (r: bool)
        ensures
            r == (self.code_point() == 0xFB23),
    ;

    /// Same answer as [`crate::is_apf_consonant_wide_kaf`].
    fn is_apf_consonant_wide_kaf(&self) -> (r: bool)
        ensures
            r == (self.code_point() == 0xFB24),
    ;

    /// Same answer as [`crate::is_apf_consonant_wide_lamed`].
    fn is_apf_consonant_wide_lamed(&self) -> (r: bool)
        ensures
            r == (self.code_point() == 0xFB25),
    ;

    /// Same answer as [`crate::is_apf_consonant_wide_final_mem`].
    fn is_apf_consonant_wide_final_mem(&self) -> (r: bool)
        ensures
            r == (self.code_point() == 0xFB26),
    ;

    /// Same answer as [`crate::is_apf_consonant_wide_resh`].
    fn is_apf_consonant_wide_resh(&self) -> (r: bool)
        ensures
            r == (self.code_point() == 0xFB27),
    ;

    /// Same answer as [`crate::is_apf_consonant_wide_tav`].
    fn is_apf_consonant_wide_tav(&self) -> (r: bool)
        ensures
            r == (self.code_point() == 0xFB28),
    ;

    /// Same answer as [`crate::is_apf_ligature_yiddisch_yod_yod_patah`].
    fn is_apf_ligature_yiddisch_yod_yod_patah(&self) -> (r: bool)
        ensures
            r == (self.code_point() == 0xFB1F),
    ;

    /// Same answer as [`crate::is_apf_ligature_alef_lamed`].
    fn is_apf_ligature_alef_lamed(&self) -> (r: bool)
        ensures
            r == (self.code_point() == 0xFB4F),
    ;
}

} // verus!
