use hebrew_unicode_script::trait_api::HebrewUnicodeScript;

#[test]
fn test_trait_hbr_script() {
    assert!(!'a'.is_script_hbr());
}

#[test]
fn test_trait_hbr_script_point() {
    assert!(!'a'.is_script_hbr_point());
}

#[test]
fn test_trait_hbr_script_consonant() {
    assert!(!'a'.is_script_hbr_consonant());
}

#[test]
fn test_trait_hbr_script_ligature_yiddisch() {
    assert!(!'a'.is_script_hbr_ligature_yiddisch());
}

#[test]
fn test_trait_hbr_block() {
    assert!(!'a'.is_hbr_block());
}

#[test]
fn test_trait_hbr_accent() {
    assert!(!'a'.is_hbr_accent());
}

#[test]
fn test_trait_hbr_mark() {
    assert!(!'a'.is_hbr_mark());
}

#[test]
fn test_trait_hbr_point() {
    assert!(!'a'.is_hbr_point());
}

#[test]
fn test_trait_hbr_point_vowel() {
    assert!(!'a'.is_hbr_point_vowel());
}

#[test]
fn test_trait_hbr_point_semi_vowel() {
    assert!(!'a'.is_hbr_point_semi_vowel());
}

#[test]
fn test_trait_hbr_point_reading_sign() {
    assert!(!'a'.is_hbr_point_reading_sign());
}

#[test]
fn test_trait_hbr_punctuation() {
    assert!(!'a'.is_hbr_punctuation());
}

#[test]
fn test_trait_hbr_consonant() {
    assert!(!'a'.is_hbr_consonant());
}

#[test]
fn test_trait_hbr_consonant_normal() {
    assert!(!'a'.is_hbr_consonant_normal());
}

#[test]
fn test_trait_hbr_consonant_final() {
    assert!(!'a'.is_hbr_consonant_final());
}

#[test]
fn test_trait_hbr_yod_triangle() {
    assert!(!'a'.is_hbr_yod_triangle());
}

#[test]
fn test_trait_hbr_ligature_yiddish() {
    assert!(!'a'.is_hbr_ligature_yiddish());
}

#[test]
fn test_trait_apf_block() {
    assert!(!'a'.is_apf_block());
}

#[test]
fn test_trait_apf_point_reading_sign() {
    assert!(!'a'.is_apf_point_reading_sign());
}

#[test]
fn test_trait_apf_consonant() {
    assert!(!'a'.is_apf_consonant());
}

#[test]
fn test_trait_apf_consonant_alternative() {
    assert!(!'a'.is_apf_consonant_alternative());
}

#[test]
fn test_trait_apf_consonant_wide() {
    assert!(!'a'.is_apf_consonant_wide());
}

#[test]
fn test_trait_apf_consonant_with_vowel() {
    assert!(!'a'.is_apf_consonant_with_vowel());
}

#[test]
fn test_trait_apf_ligature_yiddisch() {
    assert!(!'a'.is_apf_ligature_yiddisch());
}

#[test]
fn test_trait_apf_ligature() {
    assert!(!'a'.is_apf_ligature());
}
