//! The implementation of [`crate::HebrewUnicodeScript`] for `char`.
use vstd::prelude::*;
use crate::trait_def::HebrewUnicodeScript;

verus! {

impl HebrewUnicodeScript for char {
    open spec fn code_point(&self) -> u32 {
        *self as u32
    }

    fn is_script_hbr(&self) -> bool {
        crate::is_script_hbr(*self)
    }

    fn is_script_hbr_point(&self) -> bool {
        crate::is_script_hbr_point(*self)
    }

    fn is_script_hbr_point_reading_sign(&self) -> bool {
        crate::is_script_hbr_point_reading_sign(*self)
    }

    fn is_script_hbr_consonant(&self) -> bool {
        crate::is_script_hbr_consonant(*self)
    }

    fn is_script_hbr_ligature_yiddisch(&self) -> bool {
        crate::is_script_hbr_ligature_yiddisch(*self)
    }

    fn is_script_hbr_ligature(&self) -> bool {
        crate::is_script_hbr_ligature(*self)
    }

    fn is_hbr_block(&self) -> bool {
        crate::is_hbr_block(*self)
    }

    fn is_hbr_accent(&self) -> bool {
        crate::is_hbr_accent(*self)
    }

    fn is_hbr_mark(&self) -> bool {
        crate::is_hbr_mark(*self)
    }

    fn is_hbr_point(&self) -> bool {
        crate::is_hbr_point(*self)
    }

    fn is_hbr_point_vowel(&self) -> bool {
        crate::is_hbr_point_vowel(*self)
    }

    fn is_hbr_point_semi_vowel(&self) -> bool {
        crate::is_hbr_point_semi_vowel(*self)
    }

    fn is_hbr_point_reading_sign(&self) -> bool {
        crate::is_hbr_point_reading_sign(*self)
    }

    fn is_hbr_punctuation(&self) -> bool {
        crate::is_hbr_punctuation(*self)
    }

    fn is_hbr_consonant(&self) -> bool {
        crate::is_hbr_consonant(*self)
    }

    fn is_hbr_consonant_normal(&self) -> bool {
        crate::is_hbr_consonant_normal(*self)
    }

    fn is_hbr_consonant_final(&self) -> bool {
        crate::is_hbr_consonant_final(*self)
    }

    fn is_hbr_ligature_yiddish(&self) -> bool {
        crate::is_hbr_ligature_yiddish(*self)
    }

    fn is_apf_block(&self) -> bool {
        crate::is_apf_block(*self)
    }

    fn is_apf_consonant(&self) -> bool {
        crate::is_apf_consonant(*self)
    }

    fn is_apf_consonant_with_vowel(&self) -> bool {
        crate::is_apf_consonant_with_vowel(*self)
    }

    fn is_apf_point_reading_sign(&self) -> bool {
        crate::is_apf_point_reading_sign(*self)
    }

    fn is_apf_ligature(&self) -> bool {
        crate::is_apf_ligature(*self)
    }

    fn is_apf_alternative(&self) -> bool {
        crate::is_apf_alternative(*self)
    }

    fn is_apf_consonant_wide(&self) -> bool {
        crate::is_apf_consonant_wide(*self)
    }

    fn is_hbr_consonant_alef(&self) -> bool {
        crate::is_hbr_consonant_alef(*self)
    }

    fn is_hbr_consonant_bet(&self) -> bool {
        crate::is_hbr_consonant_bet(*self)
    }

    fn is_hbr_consonant_gimel(&self) -> bool {
        crate::is_hbr_consonant_gimel(*self)
    }

    fn is_hbr_consonant_dalet(&self) -> bool {
        crate::is_hbr_consonant_dalet(*self)
    }

    fn is_hbr_consonant_he(&self) -> bool {
        crate::is_hbr_consonant_he(*self)
    }

    fn is_hbr_consonant_vav(&self) -> bool {
        crate::is_hbr_consonant_vav(*self)
    }

    fn is_hbr_consonant_zayin(&self) -> bool {
        crate::is_hbr_consonant_zayin(*self)
    }

    fn is_hbr_consonant_het(&self) -> bool {
        crate::is_hbr_consonant_het(*self)
    }

    fn is_hbr_consonant_tet(&self) -> bool {
        crate::is_hbr_consonant_tet(*self)
    }

    fn is_hbr_consonant_yod(&self) -> bool {
        crate::is_hbr_consonant_yod(*self)
    }

    fn is_hbr_consonant_final_kaf(&self) -> bool {
        crate::is_hbr_consonant_final_kaf(*self)
    }

    fn is_hbr_consonant_kaf(&self) -> bool {
        crate::is_hbr_consonant_kaf(*self)
    }

    fn is_hbr_consonant_lamed(&self) -> bool {
        crate::is_hbr_consonant_lamed(*self)
    }

    fn is_hbr_consonant_final_mem(&self) -> bool {
        crate::is_hbr_consonant_final_mem(*self)
    }

    fn is_hbr_consonant_mem(&self) -> bool {
        crate::is_hbr_consonant_mem(*self)
    }

    fn is_hbr_consonant_final_nun(&self) -> bool {
        crate::is_hbr_consonant_final_nun(*self)
    }

    fn is_hbr_consonant_nun(&self) -> bool {
        crate::is_hbr_consonant_nun(*self)
    }

    fn is_hbr_consonant_samekh(&self) -> bool {
        crate::is_hbr_consonant_samekh(*self)
    }

    fn is_hbr_consonant_ayin(&self) -> bool {
        crate::is_hbr_consonant_ayin(*self)
    }

    fn is_hbr_consonant_final_pe(&self) -> bool {
        crate::is_hbr_consonant_final_pe(*self)
    }

    fn is_hbr_consonant_pe(&self) -> bool {
        crate::is_hbr_consonant_pe(*self)
    }

    fn is_hbr_consonant_final_tsadi(&self) -> bool {
        crate::is_hbr_consonant_final_tsadi(*self)
    }

    fn is_hbr_consonant_tsadi(&self) -> bool {
        crate::is_hbr_consonant_tsadi(*self)
    }

    fn is_hbr_consonant_qof(&self) -> bool {
        crate::is_hbr_consonant_qof(*self)
    }

    fn is_hbr_consonant_resh(&self) -> bool {
        crate::is_hbr_consonant_resh(*self)
    }

    fn is_hbr_consonant_shin(&self) -> bool {
        crate::is_hbr_consonant_shin(*self)
    }

    fn is_hbr_consonant_tav(&self) -> bool {
        crate::is_hbr_consonant_tav(*self)
    }

    fn is_hbr_point_sheva(&self) -> bool {
        crate::is_hbr_point_sheva(*self)
    }

    fn is_hbr_point_hataf_segol(&self) -> bool {
        crate::is_hbr_point_hataf_segol(*self)
    }

    fn is_hbr_point_hataf_patah(&self) -> bool {
        crate::is_hbr_point_hataf_patah(*self)
    }

    fn is_hbr_point_hataf_qamats(&self) -> bool {
        crate::is_hbr_point_hataf_qamats(*self)
    }

    fn is_hbr_point_hiriq(&self) -> bool {
        crate::is_hbr_point_hiriq(*self)
    }

    fn is_hbr_point_tsere(&self) -> bool {
        crate::is_hbr_point_tsere(*self)
    }

    fn is_hbr_point_segol(&self) -> bool {
        crate::is_hbr_point_segol(*self)
    }

    fn is_hbr_point_patah(&self) -> bool {
        crate::is_hbr_point_patah(*self)
    }

    fn is_hbr_point_qamats(&self) -> bool {
        crate::is_hbr_point_qamats(*self)
    }

    fn is_hbr_point_holam(&self) -> bool {
        crate::is_hbr_point_holam(*self)
    }

    fn is_hbr_point_holam_haser_for_vav(&self) -> bool {
        crate::is_hbr_point_holam_haser_for_vav(*self)
    }

    fn is_hbr_point_qubuts(&self) -> bool {
        crate::is_hbr_point_qubuts(*self)
    }

    fn is_hbr_point_dagesh_or_mapiq(&self) -> bool {
        crate::is_hbr_point_dagesh_or_mapiq(*self)
    }

    fn is_hbr_point_meteg(&self) -> bool {
        crate::is_hbr_point_meteg(*self)
    }

    fn is_hbr_point_rafe(&self) -> bool {
        crate::is_hbr_point_rafe(*self)
    }

    fn is_hbr_point_shin_dot(&self) -> bool {
        crate::is_hbr_point_shin_dot(*self)
    }

    fn is_hbr_point_sin_dot(&self) -> bool {
        crate::is_hbr_point_sin_dot(*self)
    }

    fn is_hbr_point_qamats_qatan(&self) -> bool {
        crate::is_hbr_point_qamats_qatan(*self)
    }

    fn is_hbr_accent_etnahta(&self) -> bool {
        crate::is_hbr_accent_etnahta(*self)
    }

    fn is_hbr_accent_segol(&self) -> bool {
        crate::is_hbr_accent_segol(*self)
    }

    fn is_hbr_accent_shalshelet(&self) -> bool {
        crate::is_hbr_accent_shalshelet(*self)
    }

    fn is_hbr_accent_zaqef_qatan(&self) -> bool {
        crate::is_hbr_accent_zaqef_qatan(*self)
    }

    fn is_hbr_accent_zaqef_gadol(&self) -> bool {
        crate::is_hbr_accent_zaqef_gadol(*self)
    }

    fn is_hbr_accent_tipeha(&self) -> bool {
        crate::is_hbr_accent_tipeha(*self)
    }

    fn is_hbr_accent_revia(&self) -> bool {
        crate::is_hbr_accent_revia(*self)
    }

    fn is_hbr_accent_zarqa(&self) -> bool {
        crate::is_hbr_accent_zarqa(*self)
    }

    fn is_hbr_accent_pashta(&self) -> bool {
        crate::is_hbr_accent_pashta(*self)
    }

    fn is_hbr_accent_yetiv(&self) -> bool {
        crate::is_hbr_accent_yetiv(*self)
    }

    fn is_hbr_accent_tevir(&self) -> bool {
        crate::is_hbr_accent_tevir(*self)
    }

    fn is_hbr_accent_geresh(&self) -> bool {
        crate::is_hbr_accent_geresh(*self)
    }

    fn is_hbr_accent_geresh_muqdam(&self) -> bool {
        crate::is_hbr_accent_geresh_muqdam(*self)
    }

    fn is_hbr_accent_gershayim(&self) -> bool {
        crate::is_hbr_accent_gershayim(*self)
    }

    fn is_hbr_accent_qarney_para(&self) -> bool {
        crate::is_hbr_accent_qarney_para(*self)
    }

    fn is_hbr_accent_telisha_gedola(&self) -> bool {
        crate::is_hbr_accent_telisha_gedola(*self)
    }

    fn is_hbr_accent_pazer(&self) -> bool {
        crate::is_hbr_accent_pazer(*self)
    }

    fn is_hbr_accent_atnah_hafukh(&self) -> bool {
        crate::is_hbr_accent_atnah_hafukh(*self)
    }

    fn is_hbr_accent_munah(&self) -> bool {
        crate::is_hbr_accent_munah(*self)
    }

    fn is_hbr_accent_mahapakh(&self) -> bool {
        crate::is_hbr_accent_mahapakh(*self)
    }

    fn is_hbr_accent_merkha(&self) -> bool {
        crate::is_hbr_accent_merkha(*self)
    }

    fn is_hbr_accent_merkha_kefula(&self) -> bool {
        crate::is_hbr_accent_merkha_kefula(*self)
    }

    fn is_hbr_accent_darga(&self) -> bool {
        crate::is_hbr_accent_darga(*self)
    }

    fn is_hbr_accent_qadma(&self) -> bool {
        crate::is_hbr_accent_qadma(*self)
    }

    fn is_hbr_accent_telisha_qetana(&self) -> bool {
        crate::is_hbr_accent_telisha_qetana(*self)
    }

    fn is_hbr_accent_yerah_ben_yomo(&self) -> bool {
        crate::is_hbr_accent_yerah_ben_yomo(*self)
    }

    fn is_hbr_accent_ole(&self) -> bool {
        crate::is_hbr_accent_ole(*self)
    }

    fn is_hbr_accent_iluy(&self) -> bool {
        crate::is_hbr_accent_iluy(*self)
    }

    fn is_hbr_accent_dehi(&self) -> bool {
        crate::is_hbr_accent_dehi(*self)
    }

    fn is_hbr_accent_zinor(&self) -> bool {
        crate::is_hbr_accent_zinor(*self)
    }

    fn is_hbr_mark_masora_circle(&self) -> bool {
        crate::is_hbr_mark_masora_circle(*self)
    }

    fn is_hbr_mark_upper_dot(&self) -> bool {
        crate::is_hbr_mark_upper_dot(*self)
    }

    fn is_hbr_mark_lower_dot(&self) -> bool {
        crate::is_hbr_mark_lower_dot(*self)
    }

    fn is_hbr_punctuation_maqaf(&self) -> bool {
        crate::is_hbr_punctuation_maqaf(*self)
    }

    fn is_hbr_punctuation_paseq(&self) -> bool {
        crate::is_hbr_punctuation_paseq(*self)
    }

    fn is_hbr_punctuation_sof_pasuq(&self) -> bool {
        crate::is_hbr_punctuation_sof_pasuq(*self)
    }

    fn is_hbr_punctuation_nun_hafukha(&self) -> bool {
        crate::is_hbr_punctuation_nun_hafukha(*self)
    }

    fn is_hbr_punctuation_geresh(&self) -> bool {
        crate::is_hbr_punctuation_geresh(*self)
    }

    fn is_hbr_punctuation_gershayim(&self) -> bool {
        crate::is_hbr_punctuation_gershayim(*self)
    }

    fn is_hbr_yod_triangle(&self) -> bool {
        crate::is_hbr_yod_triangle(*self)
    }

    fn is_hbr_ligature_yiddisch_double_vav(&self) -> bool {
        crate::is_hbr_ligature_yiddisch_double_vav(*self)
    }

    fn is_hbr_ligature_yiddisch_vav_yod(&self) -> bool {
        crate::is_hbr_ligature_yiddisch_vav_yod(*self)
    }

    fn is_hbr_ligature_yiddisch_double_yod(&self) -> bool {
        crate::is_hbr_ligature_yiddisch_double_yod(*self)
    }

    fn is_apf_point_judeo_spanish_varika(&self) -> bool {
        crate::is_apf_point_judeo_spanish_varika(*self)
    }

    fn is_apf_consonant_vowel_yod_hiriq(&self) -> bool {
        crate::is_apf_consonant_vowel_yod_hiriq(*self)
    }

    fn is_apf_consonant_vowel_shin_shindot(&self) -> bool {
        crate::is_apf_consonant_vowel_shin_shindot(*self)
    }

    fn is_apf_consonant_vowel_shin_sindot(&self) -> bool {
        crate::is_apf_consonant_vowel_shin_sindot(*self)
    }

    fn is_apf_consonant_vowel_shin_dagesh_shindot(&self) -> bool {
        crate::is_apf_consonant_vowel_shin_dagesh_shindot(*self)
    }

    fn is_apf_consonant_vowel_shin_dagesh_sindot(&self) -> bool {
        crate::is_apf_consonant_vowel_shin_dagesh_sindot(*self)
    }

    fn is_apf_consonant_vowel_alef_patah(&self) -> bool {
        crate::is_apf_consonant_vowel_alef_patah(*self)
    }

    fn is_apf_consonant_vowel_alef_qamats(&self) -> bool {
        crate::is_apf_consonant_vowel_alef_qamats(*self)
    }

    fn is_apf_consonant_vowel_alef_mapiq(&self) -> bool {
        crate::is_apf_consonant_vowel_alef_mapiq(*self)
    }

    fn is_apf_consonant_vowel_bet_dagesh(&self) -> bool {
        crate::is_apf_consonant_vowel_bet_dagesh(*self)
    }

    fn is_apf_consonant_vowel_gimmel_dagesh(&self) -> bool {
        crate::is_apf_consonant_vowel_gimmel_dagesh(*self)
    }

    fn is_apf_consonant_vowel_dalet_dagesh(&self) -> bool {
        crate::is_apf_consonant_vowel_dalet_dagesh(*self)
    }

    fn is_apf_consonant_vowel_he_mapiq(&self) -> bool {
        crate::is_apf_consonant_vowel_he_mapiq(*self)
    }

    fn is_apf_consonant_vowel_vav_dagesh(&self) -> bool {
        crate::is_apf_consonant_vowel_vav_dagesh(*self)
    }

    fn is_apf_consonant_vowel_zayin_dagesh(&self) -> bool {
        crate::is_apf_consonant_vowel_zayin_dagesh(*self)
    }

    fn is_apf_consonant_vowel_tet_dagesh(&self) -> bool {
        crate::is_apf_consonant_vowel_tet_dagesh(*self)
    }

    fn is_apf_consonant_vowel_yod_dagesh(&self) -> bool {
        crate::is_apf_consonant_vowel_yod_dagesh(*self)
    }

    fn is_apf_consonant_vowel_final_kaf_dagesh(&self) -> bool {
        crate::is_apf_consonant_vowel_final_kaf_dagesh(*self)
    }

    fn is_apf_consonant_vowel_kaf_dagesh(&self) -> bool {
        crate::is_apf_consonant_vowel_kaf_dagesh(*self)
    }

    fn is_apf_consonant_vowel_lamed_dagesh(&self) -> bool {
        crate::is_apf_consonant_vowel_lamed_dagesh(*self)
    }

    fn is_apf_consonant_vowel_mem_dagesh(&self) -> bool {
        crate::is_apf_consonant_vowel_mem_dagesh(*self)
    }

    fn is_apf_consonant_vowel_nun_dagesh(&self) -> bool {
        crate::is_apf_consonant_vowel_nun_dagesh(*self)
    }

    fn is_apf_consonant_vowel_samekh_dagesh(&self) -> bool {
        crate::is_apf_consonant_vowel_samekh_dagesh(*self)
    }

    fn is_apf_consonant_vowel_final_pe_dagesh(&self) -> bool {
        crate::is_apf_consonant_vowel_final_pe_dagesh(*self)
    }

    fn is_apf_consonant_vowel_pe_dagesh(&self) -> bool {
        crate::is_apf_consonant_vowel_pe_dagesh(*self)
    }

    fn is_apf_consonant_vowel_tsadi_dagesh(&self) -> bool {
        crate::is_apf_consonant_vowel_tsadi_dagesh(*self)
    }

    fn is_apf_consonant_vowel_qof_dagesh(&self) -> bool {
        crate::is_apf_consonant_vowel_qof_dagesh(*self)
    }

    fn is_apf_consonant_vowel_resh_dagesh(&self) -> bool {
        crate::is_apf_consonant_vowel_resh_dagesh(*self)
    }

    fn is_apf_consonant_vowel_shin_dagesh(&self) -> bool {
        crate::is_apf_consonant_vowel_shin_dagesh(*self)
    }

    fn is_apf_consonant_vowel_tav_dagesh(&self) -> bool {
        crate::is_apf_consonant_vowel_tav_dagesh(*self)
    }

    fn is_apf_consonant_vowel_vav_holam(&self) -> bool {
        crate::is_apf_consonant_vowel_vav_holam(*self)
    }

    fn is_apf_consonant_vowel_bet_rafe(&self) -> bool {
        crate::is_apf_consonant_vowel_bet_rafe(*self)
    }

    fn is_apf_consonant_vowel_kaf_rafe(&self) -> bool {
        crate::is_apf_consonant_vowel_kaf_rafe(*self)
    }

    fn is_apf_consonant_vowel_pe_rafe(&self) -> bool {
        crate::is_apf_consonant_vowel_pe_rafe(*self)
    }

    fn is_apf_consonant_alternative_ayin(&self) -> bool {
        crate::is_apf_consonant_alternative_ayin(*self)
    }

    fn is_apf_letter_alternative_plus_sign(&self) -> bool {
        crate::is_apf_letter_alternative_plus_sign(*self)
    }

    fn is_apf_consonant_wide_alef(&self) -> bool {
        crate::is_apf_consonant_wide_alef(*self)
    }

    fn is_apf_consonant_wide_dalet(&self) -> bool {
        crate::is_apf_consonant_wide_dalet(*self)
    }

    fn is_apf_consonant_wide_he(&self) -> bool {
        crate::is_apf_consonant_wide_he(*self)
    }

    fn is_apf_consonant_wide_kaf(&self) -> bool {
        crate::is_apf_consonant_wide_kaf(*self)
    }

    fn is_apf_consonant_wide_lamed(&self) -> bool {
        crate::is_apf_consonant_wide_lamed(*self)
    }

    fn is_apf_consonant_wide_final_mem(&self) -> bool {
        crate::is_apf_consonant_wide_final_mem(*self)
    }

    fn is_apf_consonant_wide_resh(&self) -> bool {
        crate::is_apf_consonant_wide_resh(*self)
    }

    fn is_apf_consonant_wide_tav(&self) -> bool {
        crate::is_apf_consonant_wide_tav(*self)
    }

    fn is_apf_ligature_yiddisch_yod_yod_patah(&self) -> bool {
        crate::is_apf_ligature_yiddisch_yod_yod_patah(*self)
    }

    fn is_apf_ligature_alef_lamed(&self) -> bool {
        crate::is_apf_ligature_alef_lamed(*self)
    }
}

} // verus!
