use hebrew_unicode_script::function_api::{is_apf_block, is_apf_consonant, is_apf_ligature, is_apf_ligature_yiddisch, is_apf_point_reading_sign, is_hbr_accent, is_hbr_block, is_hbr_consonant, is_hbr_consonant_final, is_hbr_consonant_normal, is_hbr_ligature_yiddish, is_hbr_mark, is_hbr_point, is_hbr_point_reading_sign, is_hbr_point_semi_vowel, is_hbr_point_vowel, is_hbr_punctuation, is_hbr_yod_triangle, is_script_hbr, is_script_hbr_consonant, is_script_hbr_ligature_yiddisch, is_script_hbr_point};

// Unicode Script 'Hebrew'
#[test]
fn function_api_test_script_hebrew() {
    let letter_a = '\u{0041}'; // A
    assert!(!is_script_hbr(letter_a));

    let letter_aleph = '\u{05D0}'; // א HEBREW LETTER ALEF
    assert!(is_script_hbr(letter_aleph));

    let letter_aleph = '\u{FB1E}'; // HEBREW POINT JUDEO-SPANISH VARIKA
    assert!(is_script_hbr(letter_aleph));
}

#[test]
fn function_api_test_script_hebrew_point() {
    let test_str = "מָ";
    for (position, c) in test_str.chars().enumerate() {
        let position_u8 = u8::try_from(position).unwrap();
        if position_u8 % 2 == 0 {
            // even position is a normal letter (non-vowel-point)
            assert!(!is_script_hbr_point(c));
        } else {
            assert!(is_script_hbr_point(c));
        }
    }
    let reading_sign = '\u{FB1E}';
    assert!(is_script_hbr_point(reading_sign));
}

#[test]
fn function_api_test_script_hebrew_consonant() {
    let test_str = "אבגדהוזחטיכךלמםנןסעפףצץקרשת";
    for c in test_str.chars() {
        assert!(is_script_hbr_consonant(c));
    }
    let afp_alternative = '\u{FB20}';
    assert!(is_script_hbr_consonant(afp_alternative));
}

#[test]
fn function_api_test_script_hebrew_ligature_yiddisch() {
    let test_str = "װױײ";
    for c in test_str.chars() {
        assert!(is_script_hbr_ligature_yiddisch(c));
    }
    let liga_yiddish = '\u{FB1F}';
    assert!(is_script_hbr_ligature_yiddisch(liga_yiddish));
}

// Unicode Block 'Hebrew'
#[test]
fn function_api_test_hbr_accent() {
    let test_str1 = "ב֑ב֒ב֓ב֔ב֕ב֖ב֗ב֘ב֙ב֚";
    let test_str2 = "ב֛ב֜ב֝ב֞ב֟ב֠ב֡ב֢ב֣ב֤";
    let test_str3 = "ב֥ב֦ב֧ב֨ב֩ב֪ב֫ב֬ב֭ב֮";
    check_accents(test_str1);
    check_accents(test_str2);
    check_accents(test_str3);
}
#[test]
fn function_api_test_hbr_mark() {
    // 05AF + 05C4 + 05C5
    let test_str = "ב֯בׄבׅ";
    check_marks(test_str);
}
#[test]
fn function_api_test_hbr_point() {
    let test_str = "בְבֱבֲבֳבִבֵבֶבַבָבֹבֺבֻבּבֽבֿבׁבׂבׇ";
    check_points(test_str);
}
#[test]
fn function_api_test_hbr_point_vowel() {
    assert!(is_hbr_point_vowel('\u{05B5}'));
}
#[test]
fn function_api_test_hbr_point_semi_vowel() {
    assert!(is_hbr_point_semi_vowel('\u{05B0}'));
}
#[test]
fn function_api_test_hbr_point_reading_sign() {
    assert!(is_hbr_point_reading_sign('\u{05BF}'));
}
#[test]
fn function_api_test_hbr_puncuation() {
    let test_str = "ב־ב׀ב׃ב׆ב׳נ״";
    check_punctuations(test_str);
}
#[test]
fn function_api_test_hbr_consonant() {
    let test_str = "אבגדהוזחטיכךלמםנןסעפףצץקרשת";
    for c in test_str.chars() {
        assert!(is_hbr_consonant(c));
    }
}
#[test]
fn function_api_test_hbr_consonant_not_final() {
    let test_str = "אבגדהוזחטיכלמנסעפצקרשת";
    for c in test_str.chars() {
        assert!(is_hbr_consonant(c));
        assert!(is_hbr_consonant_normal(c));
    }
}
#[test]
fn function_api_test_hbr_consonant_final() {
    let test_str = "ךםןףץ";
    for c in test_str.chars() {
        assert!(is_hbr_consonant_final(c));
        assert!(is_hbr_consonant(c));
    }
}
#[test]
fn function_api_test_hbr_yiddish_chars() {
    let test_str = "װױײ";
    for c in test_str.chars() {
        assert!(is_hbr_ligature_yiddish(c));
    }
}
#[test]
fn function_api_test_hbr_yod_triangle() {
    let yod_triangle = '\u{05EF}';
    assert!(is_hbr_yod_triangle(yod_triangle));
}

// Unicode Block 'Alphabetic Presentation Form'

#[test]
fn test_apf_point() {
    let test_ch = '\u{FB1E}'; // HEBREW POINT JUDEO-SPANISH VARIKA

    // unicode script 'Hebrew'
    assert!(is_script_hbr(test_ch));

    // unicode block Hebrew
    assert!(!is_hbr_block(test_ch));
    assert!(!is_hbr_accent(test_ch));
    assert!(!is_hbr_mark(test_ch));
    assert!(!is_hbr_point(test_ch));
    assert!(!is_hbr_punctuation(test_ch));
    assert!(!is_hbr_consonant_final(test_ch));
    assert!(!is_hbr_consonant(test_ch));
    assert!(!is_hbr_yod_triangle(test_ch));
    assert!(!is_hbr_ligature_yiddish(test_ch));

    // unicode block 'Alphabetic Presentation Form'
    assert!(is_apf_block(test_ch));
    assert!(is_apf_point_reading_sign(test_ch));
    assert!(!is_apf_consonant(test_ch));
    assert!(!is_apf_ligature_yiddisch(test_ch));
    assert!(!is_apf_ligature(test_ch));
}

#[test]
fn function_api_test_apf_consonant() {
    let test_ch = '\u{FB1D}'; // HEBREW LETTER YOD WITH HIRIQ

    // unicode script 'Hebrew'
    assert!(is_script_hbr(test_ch));

    // unicode block 'Hebrew'
    assert!(!is_hbr_block(test_ch));
    assert!(!is_hbr_accent(test_ch));
    assert!(!is_hbr_mark(test_ch));
    assert!(!is_hbr_point(test_ch));
    assert!(!is_hbr_punctuation(test_ch));
    assert!(!is_hbr_consonant_final(test_ch));
    assert!(!is_hbr_consonant(test_ch));
    assert!(!is_hbr_yod_triangle(test_ch));
    assert!(!is_hbr_ligature_yiddish(test_ch));

    // unicode block 'Alphabetic Presentation Form'
    assert!(is_apf_block(test_ch));
    assert!(!is_apf_point_reading_sign(test_ch));
    assert!(is_apf_consonant(test_ch));
    assert!(!is_apf_ligature_yiddisch(test_ch));
    assert!(!is_apf_ligature(test_ch));
}

#[test]
fn test_apf_ligature_yiddisch() {
    let test_ch = '\u{FB1F}'; // HEBREW LIGATURE YIDDISH YOD YOD PATAH

    // unicode script 'Hebrew'
    assert!(is_script_hbr(test_ch));
    // unicode block 'Hebrew'
    assert!(!is_hbr_block(test_ch));
    assert!(!is_hbr_accent(test_ch));
    assert!(!is_hbr_mark(test_ch));
    assert!(!is_hbr_point(test_ch));
    assert!(!is_hbr_punctuation(test_ch));
    assert!(!is_hbr_consonant_final(test_ch));
    assert!(!is_hbr_consonant(test_ch));
    assert!(!is_hbr_yod_triangle(test_ch));
    assert!(!is_hbr_ligature_yiddish(test_ch));

    // unicode block 'Alphabetic Presentation Form'
    assert!(is_apf_block(test_ch));
    assert!(!is_apf_point_reading_sign(test_ch));
    assert!(!is_apf_consonant(test_ch));
    assert!(is_apf_ligature_yiddisch(test_ch));
    assert!(!is_apf_ligature(test_ch));
}

#[test]
fn function_api_test_apf_ligature() {
    let test_ch = '\u{FB4F}'; // HEBREW LETTER WIDE DALET

    // unicode script 'Hebrew'
    assert!(is_script_hbr(test_ch));

    // unicode block 'Hebrew'
    assert!(!is_hbr_block(test_ch));
    assert!(!is_hbr_accent(test_ch));
    assert!(!is_hbr_mark(test_ch));
    assert!(!is_hbr_point(test_ch));
    assert!(!is_hbr_punctuation(test_ch));
    assert!(!is_hbr_consonant_final(test_ch));
    assert!(!is_hbr_consonant(test_ch));
    assert!(!is_hbr_yod_triangle(test_ch));
    assert!(!is_hbr_ligature_yiddish(test_ch));

    // unicode block 'Alphabetic Presentation Form'
    assert!(is_apf_block(test_ch));
    assert!(!is_apf_point_reading_sign(test_ch));
    assert!(!is_apf_consonant(test_ch));
    assert!(!is_apf_ligature_yiddisch(test_ch));
    assert!(is_apf_ligature(test_ch));
}

// supporting functions
fn check_accents(str: &str) {
    // str is an alternation of consonant-accent-consonat-accent ...
    for (position, c) in str.chars().enumerate() {
        let position_u8 = u8::try_from(position).unwrap();
        if position_u8 % 2 == 0 {
            assert!(is_hbr_consonant(c));
        } else {
            assert!(is_hbr_accent(c));
        }
    }
}
fn check_marks(str: &str) {
    for (pos, c) in str.chars().enumerate() {
        let pos_u8 = u8::try_from(pos).unwrap();
        if pos_u8 % 2 == 0 {
            assert!(is_hbr_consonant(c));
        } else {
            assert!(is_hbr_mark(c));
        }
    }
}
fn check_points(str: &str) {
    for (pos, c) in str.chars().enumerate() {
        let pos_u8 = u8::try_from(pos).unwrap();
        if pos_u8 % 2 == 0 {
            assert!(is_hbr_consonant(c));
        } else {
            assert!(is_hbr_point(c));
        }
    }
}
fn check_punctuations(str: &str) {
    for (pos, c) in str.chars().enumerate() {
        let pos_u8 = u8::try_from(pos).unwrap();
        if pos_u8 % 2 == 0 {
            assert!(is_hbr_consonant(c));
        } else {
            assert!(is_hbr_punctuation(c));
        }
    }
}
