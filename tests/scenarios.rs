use hebrew_unicode_script::function_api;
use hebrew_unicode_script::{
    is_apf_alternative, is_apf_block, is_apf_consonant, is_apf_consonant_wide,
    is_apf_consonant_with_vowel, is_apf_ligature, is_apf_point_reading_sign, is_hbr_accent,
    is_hbr_block, is_hbr_consonant, is_hbr_consonant_final, is_hbr_consonant_normal,
    is_hbr_ligature_yiddish, is_hbr_mark, is_hbr_point, is_hbr_point_reading_sign,
    is_hbr_point_semi_vowel, is_hbr_point_vowel, is_hbr_punctuation, is_hbr_yod_triangle,
    is_script_hbr, is_script_hbr_consonant, is_script_hbr_ligature,
    is_script_hbr_ligature_yiddisch, is_script_hbr_point, is_script_hbr_point_reading_sign,
    HebrewUnicodeScript,
};

fn grouped_predicates() -> Vec<fn(char) -> bool> {
    vec![
        is_script_hbr,
        is_script_hbr_consonant,
        is_script_hbr_point,
        is_script_hbr_point_reading_sign,
        is_script_hbr_ligature,
        is_script_hbr_ligature_yiddisch,
        is_hbr_block,
        is_hbr_accent,
        is_hbr_mark,
        is_hbr_point,
        is_hbr_point_vowel,
        is_hbr_point_semi_vowel,
        is_hbr_point_reading_sign,
        is_hbr_punctuation,
        is_hbr_consonant,
        is_hbr_consonant_normal,
        is_hbr_consonant_final,
        is_hbr_yod_triangle,
        is_hbr_ligature_yiddish,
        is_apf_block,
        is_apf_consonant,
        is_apf_consonant_with_vowel,
        is_apf_point_reading_sign,
        is_apf_ligature,
        is_apf_alternative,
        is_apf_consonant_wide,
        function_api::is_script_hbr,
        function_api::is_script_hbr_point,
        function_api::is_script_hbr_consonant,
        function_api::is_script_hbr_ligature_yiddisch,
        function_api::is_hbr_block,
        function_api::is_hbr_accent,
        function_api::is_hbr_mark,
        function_api::is_hbr_point,
        function_api::is_hbr_point_vowel,
        function_api::is_hbr_point_semi_vowel,
        function_api::is_hbr_point_reading_sign,
        function_api::is_hbr_punctuation,
        function_api::is_hbr_consonant,
        function_api::is_hbr_consonant_normal,
        function_api::is_hbr_consonant_final,
        function_api::is_hbr_yod_triangle,
        function_api::is_hbr_ligature_yiddish,
        function_api::is_apf_block,
        function_api::is_apf_point_reading_sign,
        function_api::is_apf_consonant,
        function_api::is_apf_consonant_alternative,
        function_api::is_apf_consonant_wide,
        function_api::is_apf_consonant_with_vowel,
        function_api::is_apf_ligature_yiddisch,
        function_api::is_apf_ligature,
    ]
}

#[test]
fn scenario_alef() {
    let c = '\u{05D0}';
    assert!(is_hbr_consonant(c));
    assert!(is_hbr_consonant_normal(c));
    assert!(!is_hbr_consonant_final(c));
    assert!(!is_hbr_accent(c));
    assert!(c.is_hbr_consonant_alef());
    assert!(!c.is_hbr_consonant_bet());
}

#[test]
fn scenario_final_kaf() {
    let c = '\u{05DA}';
    assert!(is_hbr_consonant_final(c));
    assert!(!is_hbr_consonant_normal(c));
    assert!(is_hbr_consonant(c));
    assert!(function_api::is_hbr_consonant_final(c));
    assert!(!function_api::is_hbr_consonant_normal(c));
}

#[test]
fn scenario_sheva() {
    let c = '\u{05B0}';
    assert!(is_hbr_point_semi_vowel(c));
    assert!(is_hbr_point(c));
    assert!(!is_hbr_point_vowel(c));
    assert!(!is_hbr_consonant(c));
    assert!(function_api::is_hbr_point_semi_vowel(c));
    assert!(!function_api::is_hbr_consonant(c));
}

#[test]
fn scenario_varika() {
    let c = '\u{FB1E}';
    assert!(is_apf_block(c));
    assert!(!is_hbr_block(c));
    assert!(is_script_hbr(c));
    assert!(function_api::is_apf_block(c));
    assert!(!function_api::is_hbr_block(c));
    assert!(function_api::is_script_hbr(c));
}

#[test]
fn scenario_alef_lamed() {
    let c = '\u{FB4F}';
    assert!(is_apf_ligature(c));
    assert!(!is_apf_consonant_with_vowel(c));
    assert!(!is_apf_point_reading_sign(c));
    assert!(!is_apf_alternative(c));
    assert!(!is_apf_consonant_wide(c));
    assert!(!is_apf_consonant(c));
    assert!(is_apf_block(c));
}

#[test]
fn scenario_latin_a_claimed_by_nothing() {
    let c = '\u{0041}';
    for p in grouped_predicates() {
        assert!(!p(c));
    }
    assert!(!c.is_script_hbr());
    assert!(!c.is_hbr_block());
    assert!(!c.is_apf_block());
    assert!(!c.is_apf_ligature_alef_lamed());
}

#[test]
fn ligature_groupings_differ_between_families() {
    // yod yod patah is a ligature at the crate root, but only the Yiddish
    // ligature in the range-test family
    let c = '\u{FB1F}';
    assert!(is_apf_ligature(c));
    assert!(!function_api::is_apf_ligature(c));
    assert!(function_api::is_apf_ligature_yiddisch(c));
    assert!(is_script_hbr_ligature_yiddisch(c));
    assert!(function_api::is_script_hbr_ligature_yiddisch(c));
}

#[test]
fn consonant_groupings_differ_between_families() {
    // a consonant with a vowel counts as a consonant only in the range-test family
    let c = '\u{FB2E}';
    assert!(!is_apf_consonant(c));
    assert!(function_api::is_apf_consonant(c));
    assert!(!is_script_hbr_consonant(c));
    assert!(function_api::is_script_hbr_consonant(c));
    // the alternative plus sign is a consonant form only in the range-test family
    let plus = '\u{FB29}';
    assert!(!is_apf_consonant(plus));
    assert!(function_api::is_apf_consonant(plus));
    assert!(function_api::is_apf_consonant_alternative(plus));
}

#[test]
fn block_boundaries() {
    // first and last code points of the Hebrew block are unassigned
    assert!(!is_script_hbr('\u{0590}'));
    assert!(!is_script_hbr('\u{05FF}'));
    assert!(is_script_hbr('\u{0591}'));
    assert!(is_script_hbr('\u{05C7}'));
    assert!(!is_script_hbr('\u{05C8}'));
    assert!(is_script_hbr('\u{05EA}'));
    assert!(!is_script_hbr('\u{05EB}'));
    assert!(!is_script_hbr('\u{05EE}'));
    assert!(is_script_hbr('\u{05EF}'));
    assert!(is_script_hbr('\u{05F4}'));
    assert!(!is_script_hbr('\u{05F5}'));
    // presentation forms
    assert!(!is_script_hbr('\u{FB1C}'));
    assert!(is_script_hbr('\u{FB1D}'));
    assert!(!is_script_hbr('\u{FB37}'));
    assert!(!is_script_hbr('\u{FB3D}'));
    assert!(!is_script_hbr('\u{FB3F}'));
    assert!(!is_script_hbr('\u{FB42}'));
    assert!(!is_script_hbr('\u{FB45}'));
    assert!(is_script_hbr('\u{FB4F}'));
    assert!(!is_script_hbr('\u{FB50}'));
    // extremes of the char range
    assert!(!is_script_hbr('\u{0000}'));
    assert!(!is_script_hbr('\u{10FFFF}'));
}

#[test]
fn named_character_exact_code_points() {
    assert!(is_hbr_accent('\u{05AE}'));
    assert!(!is_hbr_accent('\u{05AF}'));
    assert!(is_hbr_mark('\u{05AF}'));
    assert!(is_hbr_point_vowel('\u{05C7}'));
    assert!('\u{05C7}'.is_hbr_point_qamats_qatan());
    assert!(!'\u{05B8}'.is_hbr_point_qamats_qatan());
    assert!('\u{05EF}'.is_hbr_yod_triangle());
    assert!(!'\u{05F0}'.is_hbr_yod_triangle());
    assert!('\u{FB3E}'.is_apf_consonant_vowel_mem_dagesh());
    assert!(!'\u{FB3D}'.is_apf_consonant_vowel_mem_dagesh());
    assert!('\u{FB4E}'.is_apf_consonant_vowel_pe_rafe());
    assert!('\u{FB26}'.is_apf_consonant_wide_final_mem());
}
