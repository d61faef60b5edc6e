//! One predicate per named character of the Unicode block "Hebrew".
//!
//! Each predicate holds of exactly one code point.
use vstd::prelude::*;

verus! {

// ---- consonants ----

/// Checks whether `c` is U+05D0, the letter alef.
pub fn is_hbr_consonant_alef(c: char) -> (r: bool)
    ensures
        r == (c as u32 == 0x05D0),
{
    c == '\u{05D0}'
}

/// Checks whether `c` is U+05D1, the letter bet.
pub fn is_hbr_consonant_bet(c: char) -> (r: bool)
    ensures
        r == (c as u32 == 0x05D1),
{
    c == '\u{05D1}'
}

/// Checks whether `c` is U+05D2, the letter gimel.
pub fn is_hbr_consonant_gimel(c: char) -> (r: bool)
    ensures
        r == (c as u32 == 0x05D2),
{
    c == '\u{05D2}'
}

/// Checks whether `c` is U+05D3, the letter dalet.
pub fn is_hbr_consonant_dalet(c: char) -> (r: bool)
    ensures
        r == (c as u32 == 0x05D3),
{
    c == '\u{05D3}'
}

/// Checks whether `c` is U+05D4, the letter he.
pub fn is_hbr_consonant_he(c: char) -> (r: bool)
    ensures
        r == (c as u32 == 0x05D4),
{
    c == '\u{05D4}'
}

/// Checks whether `c` is U+05D5, the letter vav.
pub fn is_hbr_consonant_vav(c: char) -> (r: bool)
    ensures
        r == (c as u32 == 0x05D5),
{
    c == '\u{05D5}'
}

/// Checks whether `c` is U+05D6, the letter zayin.
pub fn is_hbr_consonant_zayin(c: char) -> (r: bool)
    ensures
        r == (c as u32 == 0x05D6),
{
    c == '\u{05D6}'
}

/// Checks whether `c` is U+05D7, the letter het.
pub fn is_hbr_consonant_het(c: char) -> (r: bool)
    ensures
        r == (c as u32 == 0x05D7),
{
    c == '\u{05D7}'
}

/// Checks whether `c` is U+05D8, the letter tet.
pub fn is_hbr_consonant_tet(c: char) -> (r: bool)
    ensures
        r == (c as u32 == 0x05D8),
{
    c == '\u{05D8}'
}

/// Checks whether `c` is U+05D9, the letter yod.
pub fn is_hbr_consonant_yod(c: char) -> (r: bool)
    ensures
        r == (c as u32 == 0x05D9),
{
    c == '\u{05D9}'
}

/// Checks whether `c` is U+05DA, the letter final kaf.
pub fn is_hbr_consonant_final_kaf(c: char) -> (r: bool)
    ensures
        r == (c as u32 == 0x05DA),
{
    c == '\u{05DA}'
}

/// Checks whether `c` is U+05DB, the letter kaf.
pub fn is_hbr_consonant_kaf(c: char) -> (r: bool)
    ensures
        r == (c as u32 == 0x05DB),
{
    c == '\u{05DB}'
}

/// Checks whether `c` is U+05DC, the letter lamed.
pub fn is_hbr_consonant_lamed(c: char) -> (r: bool)
    ensures
        r == (c as u32 == 0x05DC),
{
    c == '\u{05DC}'
}

/// Checks whether `c` is U+05DD, the letter final mem.
pub fn is_hbr_consonant_final_mem(c: char) -> (r: bool)
    ensures
        r == (c as u32 == 0x05DD),
{
    c == '\u{05DD}'
}

/// Checks whether `c` is U+05DE, the letter mem.
pub fn is_hbr_consonant_mem(c: char) -> (r: bool)
    ensures
        r == (c as u32 == 0x05DE),
{
    c == '\u{05DE}'
}

/// Checks whether `c` is U+05DF, the letter final nun.
pub fn is_hbr_consonant_final_nun(c: char) -> (r: bool)
    ensures
        r == (c as u32 == 0x05DF),
{
    c == '\u{05DF}'
}

/// Checks whether `c` is U+05E0, the letter nun.
pub fn is_hbr_consonant_nun(c: char) -> (r: bool)
    ensures
        r == (c as u32 == 0x05E0),
{
    c == '\u{05E0}'
}

/// Checks whether `c` is U+05E1, the letter samekh.
pub fn is_hbr_consonant_samekh(c: char) -> (r: bool)
    ensures
        r == (c as u32 == 0x05E1),
{
    c == '\u{05E1}'
}

/// Checks whether `c` is U+05E2, the letter ayin.
pub fn is_hbr_consonant_ayin(c: char) -> (r: bool)
    ensures
        r == (c as u32 == 0x05E2),
{
    c == '\u{05E2}'
}

/// Checks whether `c` is U+05E3, the letter final pe.
pub fn is_hbr_consonant_final_pe(c: char) -> (r: bool)
    ensures
        r == (c as u32 == 0x05E3),
{
    c == '\u{05E3}'
}

/// Checks whether `c` is U+05E4, the letter pe.
pub fn is_hbr_consonant_pe(c: char) -> (r: bool)
    ensures
        r == (c as u32 == 0x05E4),
{
    c == '\u{05E4}'
}

/// Checks whether `c` is U+05E5, the letter final tsadi.
pub fn is_hbr_consonant_final_tsadi(c: char) -> (r: bool)
    ensures
        r == (c as u32 == 0x05E5),
{
    c == '\u{05E5}'
}

/// Checks whether `c` is U+05E6, the letter tsadi.
pub fn is_hbr_consonant_tsadi(c: char) -> (r: bool)
    ensures
        r == (c as u32 == 0x05E6),
{
    c == '\u{05E6}'
}

/// Checks whether `c` is U+05E7, the letter qof.
pub fn is_hbr_consonant_qof(c: char) -> (r: bool)
    ensures
        r == (c as u32 == 0x05E7),
{
    c == '\u{05E7}'
}

/// Checks whether `c` is U+05E8, the letter resh.
pub fn is_hbr_consonant_resh(c: char) -> (r: bool)
    ensures
        r == (c as u32 == 0x05E8),
{
    c == '\u{05E8}'
}

/// Checks whether `c` is U+05E9, the letter shin.
pub fn is_hbr_consonant_shin(c: char) -> (r: bool)
    ensures
        r == (c as u32 == 0x05E9),
{
    c == '\u{05E9}'
}

/// Checks whether `c` is U+05EA, the letter tav.
pub fn is_hbr_consonant_tav(c: char) -> (r: bool)
    ensures
        r == (c as u32 == 0x05EA),
{
    c == '\u{05EA}'
}

// ---- points ----

/// Checks whether `c` is U+05B0, the point sheva.
pub fn is_hbr_point_sheva(c: char) -> (r: bool)
    ensures
        r == (c as u32 == 0x05B0),
{
    c == '\u{05B0}'
}

/// Checks whether `c` is U+05B1, the point hataf segol.
pub fn is_hbr_point_hataf_segol(c: char) -> (r: bool)
    ensures
        r == (c as u32 == 0x05B1),
{
    c == '\u{05B1}'
}

/// Checks whether `c` is U+05B2, the point hataf patah.
pub fn is_hbr_point_hataf_patah(c: char) -> (r: bool)
    ensures
        r == (c as u32 == 0x05B2),
{
    c == '\u{05B2}'
}

/// Checks whether `c` is U+05B3, the point hataf qamats.
pub fn is_hbr_point_hataf_qamats(c: char) -> (r: bool)
    ensures
        r == (c as u32 == 0x05B3),
{
    c == '\u{05B3}'
}

/// Checks whether `c` is U+05B4, the point hiriq.
pub fn is_hbr_point_hiriq(c: char) -> (r: bool)
    ensures
        r == (c as u32 == 0x05B4),
{
    c == '\u{05B4}'
}

/// Checks whether `c` is U+05B5, the point tsere.
pub fn is_hbr_point_tsere(c: char) -> (r: bool)
    ensures
        r == (c as u32 == 0x05B5),
{
    c == '\u{05B5}'
}

/// Checks whether `c` is U+05B6, the point segol.
pub fn is_hbr_point_segol(c: char) -> (r: bool)
    ensures
        r == (c as u32 == 0x05B6),
{
    c == '\u{05B6}'
}

/// Checks whether `c` is U+05B7, the point patah.
pub fn is_hbr_point_patah(c: char) -> (r: bool)
    ensures
        r == (c as u32 == 0x05B7),
{
    c == '\u{05B7}'
}

/// Checks whether `c` is U+05B8, the point qamats.
pub fn is_hbr_point_qamats(c: char) -> (r: bool)
    ensures
        r == (c as u32 == 0x05B8),
{
    c == '\u{05B8}'
}

/// Checks whether `c` is U+05B9, the point holam.
pub fn is_hbr_point_holam(c: char) -> (r: bool)
    ensures
        r == (c as u32 == 0x05B9),
{
    c == '\u{05B9}'
}

/// Checks whether `c` is U+05BA, the point holam haser for vav.
pub fn is_hbr_point_holam_haser_for_vav(c: char) -> (r: bool)
    ensures
        r == (c as u32 == 0x05BA),
{
    c == '\u{05BA}'
}

/// Checks whether `c` is U+05BB, the point qubuts.
pub fn is_hbr_point_qubuts(c: char) -> (r: bool)
    ensures
        r == (c as u32 == 0x05BB),
{
    c == '\u{05BB}'
}

/// Checks whether `c` is U+05BC, the point dagesh or mapiq.
pub fn is_hbr_point_dagesh_or_mapiq(c: char) -> (r: bool)
    ensures
        r == (c as u32 == 0x05BC),
{
    c == '\u{05BC}'
}

/// Checks whether `c` is U+05BD, the point meteg.
pub fn is_hbr_point_meteg(c: char) -> (r: bool)
    ensures
        r == (c as u32 == 0x05BD),
{
    c == '\u{05BD}'
}

/// Checks whether `c` is U+05BF, the point rafe.
pub fn is_hbr_point_rafe(c: char) -> (r: bool)
    ensures
        r == (c as u32 == 0x05BF),
{
    c == '\u{05BF}'
}

/// Checks whether `c` is U+05C1, the point shin dot.
pub fn is_hbr_point_shin_dot(c: char) -> (r: bool)
    ensures
        r == (c as u32 == 0x05C1),
{
    c == '\u{05C1}'
}

/// Checks whether `c` is U+05C2, the point sin dot.
pub fn is_hbr_point_sin_dot(c: char) -> (r: bool)
    ensures
        r == (c as u32 == 0x05C2),
{
    c == '\u{05C2}'
}

/// Checks whether `c` is U+05C7, the point qamats qatan.
pub fn is_hbr_point_qamats_qatan(c: char) -> (r: bool)
    ensures
        r == (c as u32 == 0x05C7),
{
    c == '\u{05C7}'
}

// ---- accents ----

/// Checks whether `c` is U+0591, the accent etnahta.
pub fn is_hbr_accent_etnahta(c: char) -> (r: bool)
    ensures
        r == (c as u32 == 0x0591),
{
    c == '\u{0591}'
}

/// Checks whether `c` is U+0592, the accent segol.
pub fn is_hbr_accent_segol(c: char) -> (r: bool)
    ensures
        r == (c as u32 == 0x0592),
{
    c == '\u{0592}'
}

/// Checks whether `c` is U+0593, the accent shalshelet.
pub fn is_hbr_accent_shalshelet(c: char) -> (r: bool)
    ensures
        r == (c as u32 == 0x0593),
{
    c == '\u{0593}'
}

/// Checks whether `c` is U+0594, the accent zaqef qatan.
pub fn is_hbr_accent_zaqef_qatan(c: char) -> (r: bool)
    ensures
        r == (c as u32 == 0x0594),
{
    c == '\u{0594}'
}

/// Checks whether `c` is U+0595, the accent zaqef gadol.
pub fn is_hbr_accent_zaqef_gadol(c: char) -> (r: bool)
    ensures
        r == (c as u32 == 0x0595),
{
    c == '\u{0595}'
}

/// Checks whether `c` is U+0596, the accent tipeha.
pub fn is_hbr_accent_tipeha(c: char) -> (r: bool)
    ensures
        r == (c as u32 == 0x0596),
{
    c == '\u{0596}'
}

/// Checks whether `c` is U+0597, the accent revia.
pub fn is_hbr_accent_revia(c: char) -> (r: bool)
    ensures
        r == (c as u32 == 0x0597),
{
    c == '\u{0597}'
}

/// Checks whether `c` is U+0598, the accent zarqa.
pub fn is_hbr_accent_zarqa(c: char) -> (r: bool)
    ensures
        r == (c as u32 == 0x0598),
{
    c == '\u{0598}'
}

/// Checks whether `c` is U+0599, the accent pashta.
pub fn is_hbr_accent_pashta(c: char) -> (r: bool)
    ensures
        r == (c as u32 == 0x0599),
{
    c == '\u{0599}'
}

/// Checks whether `c` is U+059A, the accent yetiv.
pub fn is_hbr_accent_yetiv(c: char) -> (r: bool)
    ensures
        r == (c as u32 == 0x059A),
{
    c == '\u{059A}'
}

/// Checks whether `c` is U+059B, the accent tevir.
pub fn is_hbr_accent_tevir(c: char) -> (r: bool)
    ensures
        r == (c as u32 == 0x059B),
{
    c == '\u{059B}'
}

/// Checks whether `c` is U+059C, the accent geresh.
pub fn is_hbr_accent_geresh(c: char) -> (r: bool)
    ensures
        r == (c as u32 == 0x059C),
{
    c == '\u{059C}'
}

/// Checks whether `c` is U+059D, the accent geresh muqdam.
pub fn is_hbr_accent_geresh_muqdam(c: char) -> (r: bool)
    ensures
        r == (c as u32 == 0x059D),
{
    c == '\u{059D}'
}

/// Checks whether `c` is U+059E, the accent gershayim.
pub fn is_hbr_accent_gershayim(c: char) -> (r: bool)
    ensures
        r == (c as u32 == 0x059E),
{
    c == '\u{059E}'
}

/// Checks whether `c` is U+059F, the accent qarney para.
pub fn is_hbr_accent_qarney_para(c: char) -> (r: bool)
    ensures
        r == (c as u32 == 0x059F),
{
    c == '\u{059F}'
}

/// Checks whether `c` is U+05A0, the accent telisha gedola.
pub fn is_hbr_accent_telisha_gedola(c: char) -> (r: bool)
    ensures
        r == (c as u32 == 0x05A0),
{
    c == '\u{05A0}'
}

/// Checks whether `c` is U+05A1, the accent pazer.
pub fn is_hbr_accent_pazer(c: char) -> (r: bool)
    ensures
        r == (c as u32 == 0x05A1),
{
    c == '\u{05A1}'
}

/// Checks whether `c` is U+05A2, the accent atnah hafukh.
pub fn is_hbr_accent_atnah_hafukh(c: char) -> (r: bool)
    ensures
        r == (c as u32 == 0x05A2),
{
    c == '\u{05A2}'
}

/// Checks whether `c` is U+05A3, the accent munah.
pub fn is_hbr_accent_munah(c: char) -> (r: bool)
    ensures
        r == (c as u32 == 0x05A3),
{
    c == '\u{05A3}'
}

/// Checks whether `c` is U+05A4, the accent mahapakh.
pub fn is_hbr_accent_mahapakh(c: char) -> (r: bool)
    ensures
        r == (c as u32 == 0x05A4),
{
    c == '\u{05A4}'
}

/// Checks whether `c` is U+05A5, the accent merkha.
pub fn is_hbr_accent_merkha(c: char) -> (r: bool)
    ensures
        r == (c as u32 == 0x05A5),
{
    c == '\u{05A5}'
}

/// Checks whether `c` is U+05A6, the accent merkha kefula.
pub fn is_hbr_accent_merkha_kefula(c: char) -> (r: bool)
    ensures
        r == (c as u32 == 0x05A6),
{
    c == '\u{05A6}'
}

/// Checks whether `c` is U+05A7, the accent darga.
pub fn is_hbr_accent_darga(c: char) -> (r: bool)
    ensures
        r == (c as u32 == 0x05A7),
{
    c == '\u{05A7}'
}

/// Checks whether `c` is U+05A8, the accent qadma.
pub fn is_hbr_accent_qadma(c: char) -> (r: bool)
    ensures
        r == (c as u32 == 0x05A8),
{
    c == '\u{05A8}'
}

/// Checks whether `c` is U+05A9, the accent telisha qetana.
pub fn is_hbr_accent_telisha_qetana(c: char) -> (r: bool)
    ensures
        r == (c as u32 == 0x05A9),
{
    c == '\u{05A9}'
}

/// Checks whether `c` is U+05AA, the accent yerah ben yomo.
pub fn is_hbr_accent_yerah_ben_yomo(c: char) -> (r: bool)
    ensures
        r == (c as u32 == 0x05AA),
{
    c == '\u{05AA}'
}

/// Checks whether `c` is U+05AB, the accent ole.
pub fn is_hbr_accent_ole(c: char) -> (r: bool)
    ensures
        r == (c as u32 == 0x05AB),
{
    c == '\u{05AB}'
}

/// Checks whether `c` is U+05AC, the accent iluy.
pub fn is_hbr_accent_iluy(c: char) -> (r: bool)
    ensures
        r == (c as u32 == 0x05AC),
{
    c == '\u{05AC}'
}

/// Checks whether `c` is U+05AD, the accent dehi.
pub fn is_hbr_accent_dehi(c: char) -> (r: bool)
    ensures
        r == (c as u32 == 0x05AD),
{
    c == '\u{05AD}'
}

/// Checks whether `c` is U+05AE, the accent zinor.
pub fn is_hbr_accent_zinor(c: char) -> (r: bool)
    ensures
        r == (c as u32 == 0x05AE),
{
    c == '\u{05AE}'
}

// ---- marks ----

/// Checks whether `c` is U+05AF, the mark masora circle.
pub fn is_hbr_mark_masora_circle(c: char) -> (r: bool)
    ensures
        r == (c as u32 == 0x05AF),
{
    c == '\u{05AF}'
}

/// Checks whether `c` is U+05C4, the mark upper dot.
pub fn is_hbr_mark_upper_dot(c: char) -> (r: bool)
    ensures
        r == (c as u32 == 0x05C4),
{
    c == '\u{05C4}'
}

/// Checks whether `c` is U+05C5, the mark lower dot.
pub fn is_hbr_mark_lower_dot(c: char) -> (r: bool)
    ensures
        r == (c as u32 == 0x05C5),
{
    c == '\u{05C5}'
}

// ---- punctuation ----

/// Checks whether `c` is U+05BE, the punctuation maqaf.
pub fn is_hbr_punctuation_maqaf(c: char) -> (r: bool)
    ensures
        r == (c as u32 == 0x05BE),
{
    c == '\u{05BE}'
}

/// Checks whether `c` is U+05C0, the punctuation paseq.
pub fn is_hbr_punctuation_paseq(c: char) -> (r: bool)
    ensures
        r == (c as u32 == 0x05C0),
{
    c == '\u{05C0}'
}

/// Checks whether `c` is U+05C3, the punctuation sof pasuq.
pub fn is_hbr_punctuation_sof_pasuq(c: char) -> (r: bool)
    ensures
        r == (c as u32 == 0x05C3),
{
    c == '\u{05C3}'
}

/// Checks whether `c` is U+05C6, the punctuation nun hafukha.
pub fn is_hbr_punctuation_nun_hafukha(c: char) -> (r: bool)
    ensures
        r == (c as u32 == 0x05C6),
{
    c == '\u{05C6}'
}

/// Checks whether `c` is U+05F3, the punctuation geresh.
pub fn is_hbr_punctuation_geresh(c: char) -> (r: bool)
    ensures
        r == (c as u32 == 0x05F3),
{
    c == '\u{05F3}'
}

/// Checks whether `c` is U+05F4, the punctuation gershayim.
pub fn is_hbr_punctuation_gershayim(c: char) -> (r: bool)
    ensures
        r == (c as u32 == 0x05F4),
{
    c == '\u{05F4}'
}

// ---- yod triangle and Yiddish ligatures ----

/// Checks whether `c` is U+05EF, the yod triangle.
pub fn is_hbr_yod_triangle(c: char) -> (r: bool)
    ensures
        r == (c as u32 == 0x05EF),
{
    c == '\u{05EF}'
}

/// Checks whether `c` is U+05F0, the Yiddish ligature double vav.
pub fn is_hbr_ligature_yiddisch_double_vav(c: char) -> (r: bool)
    ensures
        r == (c as u32 == 0x05F0),
{
    c == '\u{05F0}'
}

/// Checks whether `c` is U+05F1, the Yiddish ligature vav yod.
pub fn is_hbr_ligature_yiddisch_vav_yod(c: char) -> (r: bool)
    ensures
        r == (c as u32 == 0x05F1),
{
    c == '\u{05F1}'
}

/// Checks whether `c` is U+05F2, the Yiddish ligature double yod.
pub fn is_hbr_ligature_yiddisch_double_yod(c: char) -> (r: bool)
    ensures
        r == (c as u32 == 0x05F2),
{
    c == '\u{05F2}'
}

} // verus!
