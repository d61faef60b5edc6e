use hebrew_unicode_script::function_api;
use hebrew_unicode_script::{
    is_apf_alternative, is_apf_block, is_apf_consonant, is_apf_consonant_wide,
    is_apf_consonant_with_vowel, is_apf_ligature, is_apf_point_reading_sign, is_hbr_accent,
    is_hbr_block, is_hbr_consonant, is_hbr_consonant_final, is_hbr_consonant_normal,
    is_hbr_ligature_yiddish, is_hbr_mark, is_hbr_point, is_hbr_point_reading_sign,
    is_hbr_point_semi_vowel, is_hbr_point_vowel, is_hbr_punctuation, is_hbr_yod_triangle,
    is_script_hbr, is_script_hbr_consonant, is_script_hbr_ligature,
    is_script_hbr_ligature_yiddisch, is_script_hbr_point, is_script_hbr_point_reading_sign,
    HebrewUnicodeScript,
};

fn hbr_leaves() -> Vec<fn(char) -> bool> {
    vec![
        is_hbr_accent,
        is_hbr_mark,
        is_hbr_point_vowel,
        is_hbr_point_semi_vowel,
        is_hbr_point_reading_sign,
        is_hbr_punctuation,
        is_hbr_consonant_normal,
        is_hbr_consonant_final,
        is_hbr_yod_triangle,
        is_hbr_ligature_yiddish,
    ]
}

fn apf_leaves() -> Vec<fn(char) -> bool> {
    vec![
        is_apf_consonant_with_vowel,
        is_apf_point_reading_sign,
        is_apf_ligature,
        is_apf_alternative,
        is_apf_consonant_wide,
    ]
}

fn all_chars() -> impl Iterator<Item = char> {
    (0u32..=0x10FFFF).filter_map(char::from_u32)
}

#[test]
fn hebrew_block_leaves_partition() {
    for cp in 0x0590u32..=0x05FF {
        let c = char::from_u32(cp).unwrap();
        let n = hbr_leaves().iter().filter(|p| p(c)).count();
        assert!(n <= 1, "U+{:04X} claimed {} times", cp, n);
        assert_eq!(n == 1, is_hbr_block(c));
    }
}

#[test]
fn presentation_form_leaves_partition() {
    for cp in 0xFB1Du32..=0xFB4F {
        let c = char::from_u32(cp).unwrap();
        let n = apf_leaves().iter().filter(|p| p(c)).count();
        assert!(n <= 1, "U+{:04X} claimed {} times", cp, n);
        assert_eq!(n == 1, is_apf_block(c));
    }
}

#[test]
fn containment_upward() {
    for c in all_chars() {
        if is_hbr_point_vowel(c) || is_hbr_point_semi_vowel(c) || is_hbr_point_reading_sign(c) {
            assert!(is_hbr_point(c));
        }
        if is_hbr_consonant_normal(c) || is_hbr_consonant_final(c) {
            assert!(is_hbr_consonant(c));
        }
        if hbr_leaves().iter().any(|p| p(c)) || is_hbr_point(c) || is_hbr_consonant(c) {
            assert!(is_hbr_block(c));
        }
        if apf_leaves().iter().any(|p| p(c)) || is_apf_consonant(c) {
            assert!(is_apf_block(c));
        }
        if is_hbr_block(c) || is_apf_block(c) {
            assert!(is_script_hbr(c));
        }
        if is_script_hbr_consonant(c)
            || is_script_hbr_point(c)
            || is_script_hbr_point_reading_sign(c)
            || is_script_hbr_ligature(c)
            || is_script_hbr_ligature_yiddisch(c)
        {
            assert!(is_script_hbr(c));
        }
    }
}

#[test]
fn named_characters_lie_in_their_category() {
    assert!(is_hbr_consonant_normal('\u{05D0}') && '\u{05D0}'.is_hbr_consonant_alef());
    assert!(is_hbr_consonant_final('\u{05E5}') && '\u{05E5}'.is_hbr_consonant_final_tsadi());
    assert!(is_hbr_accent('\u{05A0}') && '\u{05A0}'.is_hbr_accent_telisha_gedola());
    assert!(is_hbr_point_reading_sign('\u{05C2}') && '\u{05C2}'.is_hbr_point_sin_dot());
    assert!(is_hbr_punctuation('\u{05C6}') && '\u{05C6}'.is_hbr_punctuation_nun_hafukha());
    assert!(is_hbr_mark('\u{05C5}') && '\u{05C5}'.is_hbr_mark_lower_dot());
    assert!(is_apf_consonant_wide('\u{FB28}') && '\u{FB28}'.is_apf_consonant_wide_tav());
    assert!(is_apf_alternative('\u{FB29}') && '\u{FB29}'.is_apf_letter_alternative_plus_sign());
}

#[test]
fn hebrew_block_completeness() {
    for cp in 0x0590u32..=0x05FF {
        let c = char::from_u32(cp).unwrap();
        let assigned = (0x0591..=0x05C7).contains(&cp)
            || (0x05D0..=0x05EA).contains(&cp)
            || (0x05EF..=0x05F4).contains(&cp);
        assert_eq!(is_hbr_block(c), assigned, "U+{:04X}", cp);
        let any_group = is_hbr_accent(c)
            || is_hbr_mark(c)
            || is_hbr_point(c)
            || is_hbr_punctuation(c)
            || is_hbr_consonant(c)
            || is_hbr_yod_triangle(c)
            || is_hbr_ligature_yiddish(c);
        assert_eq!(is_hbr_block(c), any_group);
    }
}

#[test]
fn presentation_form_completeness() {
    for cp in 0xFB1Du32..=0xFB4F {
        let c = char::from_u32(cp).unwrap();
        let unassigned = [0xFB37, 0xFB3D, 0xFB3F, 0xFB42, 0xFB45].contains(&cp);
        assert_eq!(is_apf_block(c), !unassigned, "U+{:04X}", cp);
    }
}

#[test]
fn nothing_outside_the_two_ranges() {
    for c in all_chars() {
        let cp = c as u32;
        if !(0x0590..=0x05FF).contains(&cp) && !(0xFB1D..=0xFB4F).contains(&cp) {
            assert!(!is_script_hbr(c));
            assert!(!function_api::is_script_hbr(c));
            assert!(!c.is_script_hbr());
        }
    }
}

#[test]
fn both_families_agree_on_blocks() {
    for c in all_chars() {
        assert_eq!(is_script_hbr(c), function_api::is_script_hbr(c));
        assert_eq!(is_hbr_block(c), function_api::is_hbr_block(c));
        assert_eq!(is_apf_block(c), function_api::is_apf_block(c));
        assert_eq!(is_hbr_consonant(c), function_api::is_hbr_consonant(c));
        assert_eq!(is_hbr_point(c), function_api::is_hbr_point(c));
        assert_eq!(is_hbr_punctuation(c), function_api::is_hbr_punctuation(c));
    }
}
