//! Method-call form of the predicates of [`crate::function_api`], for `char`.
use vstd::prelude::*;
use crate::taxonomy::{
    apf_alternative, apf_block, apf_consonant_wide, apf_consonant_with_vowel,
    apf_point_reading_sign, hbr_accent, hbr_block, hbr_consonant, hbr_consonant_final,
    hbr_consonant_normal, hbr_ligature_yiddish, hbr_mark, hbr_point, hbr_point_reading_sign,
    hbr_point_semi_vowel, hbr_point_vowel, hbr_punctuation, hbr_yod_triangle, script_hbr,
};

verus! {

/// The predicates of [`crate::function_api`] as methods: `c.is_apf_consonant()`
/// answers as `function_api::is_apf_consonant(c)` does. Implemented for `char`.
pub trait HebrewUnicodeScript {
    /// The code point that the predicates classify.
    spec fn code_point(&self) -> u32;

    /// Same answer as [`crate::function_api::is_script_hbr`].
    fn is_script_hbr(&self) -> (r: bool)
        ensures
            r == script_hbr(self.code_point()),
    ;

    /// Same answer as [`crate::function_api::is_script_hbr_point`].
    fn is_script_hbr_point(&self) -> (r: bool)
        ensures
            r == (hbr_point(self.code_point()) || apf_point_reading_sign(self.code_point())),
    ;

    /// Same answer as [`crate::function_api::is_script_hbr_consonant`].
    fn is_script_hbr_consonant(&self) -> (r: bool)
        ensures
            r == (hbr_consonant(self.code_point()) || apf_alternative(self.code_point())
                || apf_consonant_wide(self.code_point())
            || apf_consonant_with_vowel(self.code_point())),
    ;

    /// Same answer as [`crate::function_api::is_script_hbr_ligature_yiddisch`].
    fn is_script_hbr_ligature_yiddisch(&self) -> (r: bool)
        ensures
            r == (hbr_ligature_yiddish(self.code_point()) || self.code_point() == 0xFB1F),
    ;

    /// Same answer as [`crate::function_api::is_hbr_block`].
    fn is_hbr_block(&self) -> (r: bool)
        ensures
            r == hbr_block(self.code_point()),
    ;

    /// Same answer as [`crate::function_api::is_hbr_accent`].
    fn is_hbr_accent(&self) -> (r: bool)
        ensures
            r == hbr_accent(self.code_point()),
    ;

    /// Same answer as [`crate::function_api::is_hbr_mark`].
    fn is_hbr_mark(&self) -> (r: bool)
        ensures
            r == hbr_mark(self.code_point()),
    ;

    /// Same answer as [`crate::function_api::is_hbr_point`].
    fn is_hbr_point(&self) -> (r: bool)
        ensures
            r == hbr_point(self.code_point()),
    ;

    /// Same answer as [`crate::function_api::is_hbr_point_vowel`].
    fn is_hbr_point_vowel(&self) -> (r: bool)
        ensures
            r == hbr_point_vowel(self.code_point()),
    ;

    /// Same answer as [`crate::function_api::is_hbr_point_semi_vowel`].
    fn is_hbr_point_semi_vowel(&self) -> (r: bool)
        ensures
            r == hbr_point_semi_vowel(self.code_point()),
    ;

    /// Same answer as [`crate::function_api::is_hbr_point_reading_sign`].
    fn is_hbr_point_reading_sign(&self) -> (r: bool)
        ensures
            r == hbr_point_reading_sign(self.code_point()),
    ;

    /// Same answer as [`crate::function_api::is_hbr_punctuation`].
    fn is_hbr_punctuation(&self) -> (r: bool)
        ensures
            r == hbr_punctuation(self.code_point()),
    ;

    /// Same answer as [`crate::function_api::is_hbr_consonant`].
    fn is_hbr_consonant(&self) -> (r: bool)
        ensures
            r == hbr_consonant(self.code_point()),
    ;

    /// Same answer as [`crate::function_api::is_hbr_consonant_normal`].
    fn is_hbr_consonant_normal(&self) -> (r: bool)
        ensures
            r == hbr_consonant_normal(self.code_point()),
    ;

    /// Same answer as [`crate::function_api::is_hbr_consonant_final`].
    fn is_hbr_consonant_final(&self) -> (r: bool)
        ensures
            r == hbr_consonant_final(self.code_point()),
    ;

    /// Same answer as [`crate::function_api::is_hbr_yod_triangle`].
    fn is_hbr_yod_triangle(&self) -> (r: bool)
        ensures
            r == hbr_yod_triangle(self.code_point()),
    ;

    /// Same answer as [`crate::function_api::is_hbr_ligature_yiddish`].
    fn is_hbr_ligature_yiddish(&self) -> (r: bool)
        ensures
            r == hbr_ligature_yiddish(self.code_point()),
    ;

    /// Same answer as [`crate::function_api::is_apf_block`].
    fn is_apf_block(&self) -> (r: bool)
        ensures
            r == apf_block(self.code_point()),
    ;

    /// Same answer as [`crate::function_api::is_apf_point_reading_sign`].
    fn is_apf_point_reading_sign(&self) -> (r: bool)
        ensures
            r == apf_point_reading_sign(self.code_point()),
    ;

    /// Same answer as [`crate::function_api::is_apf_consonant`].
    fn is_apf_consonant(&self) -> (r: bool)
        ensures
            r == (apf_alternative(self.code_point()) || apf_consonant_wide(self.code_point())
                || apf_consonant_with_vowel(self.code_point())),
    ;

    /// Same answer as [`crate::function_api::is_apf_consonant_alternative`].
    fn is_apf_consonant_alternative(&self) -> (r: bool)
        ensures
            r == apf_alternative(self.code_point()),
    ;

    /// Same answer as [`crate::function_api::is_apf_consonant_wide`].
    fn is_apf_consonant_wide(&self) -> (r: bool)
        ensures
            r == apf_consonant_wide(self.code_point()),
    ;

    /// Same answer as [`crate::function_api::is_apf_consonant_with_vowel`].
    fn is_apf_consonant_with_vowel(&self) -> (r: bool)
        ensures
            r == apf_consonant_with_vowel(self.code_point()),
    ;

    /// Same answer as [`crate::function_api::is_apf_ligature_yiddisch`].
    fn is_apf_ligature_yiddisch(&self) -> (r: bool)
        ensures
            r == (self.code_point() == 0xFB1F),
    ;

    /// Same answer as [`crate::function_api::is_apf_ligature`].
    fn is_apf_ligature(&self) -> (r: bool)
        ensures
            r == (self.code_point() == 0xFB4F),
    ;
}

impl HebrewUnicodeScript for char {
    open spec fn code_point(&self) -> u32 {
        *self as u32
    }

    fn is_script_hbr(&self) -> bool {
        crate::function_api::is_script_hbr(*self)
    }

    fn is_script_hbr_point(&self) -> bool {
        crate::function_api::is_script_hbr_point(*self)
    }

    fn is_script_hbr_consonant(&self) -> bool {
        crate::function_api::is_script_hbr_consonant(*self)
    }

    fn is_script_hbr_ligature_yiddisch(&self) -> bool {
        crate::function_api::is_script_hbr_ligature_yiddisch(*self)
    }

    fn is_hbr_block(&self) -> bool {
        crate::function_api::is_hbr_block(*self)
    }

    fn is_hbr_accent(&self) -> bool {
        crate::function_api::is_hbr_accent(*self)
    }

    fn is_hbr_mark(&self) -> bool {
        crate::function_api::is_hbr_mark(*self)
    }

    fn is_hbr_point(&self) -> bool {
        crate::function_api::is_hbr_point(*self)
    }

    fn is_hbr_point_vowel(&self) -> bool {
        crate::function_api::is_hbr_point_vowel(*self)
    }

    fn is_hbr_point_semi_vowel(&self) -> bool {
        crate::function_api::is_hbr_point_semi_vowel(*self)
    }

    fn is_hbr_point_reading_sign(&self) -> bool {
        crate::function_api::is_hbr_point_reading_sign(*self)
    }

    fn is_hbr_punctuation(&self) -> bool {
        crate::function_api::is_hbr_punctuation(*self)
    }

    fn is_hbr_consonant(&self) -> bool {
        crate::function_api::is_hbr_consonant(*self)
    }

    fn is_hbr_consonant_normal(&self) -> bool {
        crate::function_api::is_hbr_consonant_normal(*self)
    }

    fn is_hbr_consonant_final(&self) -> bool {
        crate::function_api::is_hbr_consonant_final(*self)
    }

    fn is_hbr_yod_triangle(&self) -> bool {
        crate::function_api::is_hbr_yod_triangle(*self)
    }

    fn is_hbr_ligature_yiddish(&self) -> bool {
        crate::function_api::is_hbr_ligature_yiddish(*self)
    }

    fn is_apf_block(&self) -> bool {
        crate::function_api::is_apf_block(*self)
    }

    fn is_apf_point_reading_sign(&self) -> bool {
        crate::function_api::is_apf_point_reading_sign(*self)
    }

    fn is_apf_consonant(&self) -> bool {
        crate::function_api::is_apf_consonant(*self)
    }

    fn is_apf_consonant_alternative(&self) -> bool {
        crate::function_api::is_apf_consonant_alternative(*self)
    }

    fn is_apf_consonant_wide(&self) -> bool {
        crate::function_api::is_apf_consonant_wide(*self)
    }

    fn is_apf_consonant_with_vowel(&self) -> bool {
        crate::function_api::is_apf_consonant_with_vowel(*self)
    }

    fn is_apf_ligature_yiddisch(&self) -> bool {
        crate::function_api::is_apf_ligature_yiddisch(*self)
    }

    fn is_apf_ligature(&self) -> bool {
        crate::function_api::is_apf_ligature(*self)
    }
}

} // verus!
