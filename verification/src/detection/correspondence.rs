//! How the scripts and languages of the library stand to those of
//! `whatlang`, and what detection answers without an allow list.
//!
//! `whatlang` numbers its scripts (`whatlang::Script`) in the order Arabic,
//! Armenian, Bengali, Cyrillic, Devanagari, Ethiopic, Georgian, Greek,
//! Gujarati, Gurmukhi, Hangul, Hebrew, Hiragana, Kannada, Katakana, Khmer,
//! Latin, Malayalam, Mandarin, Myanmar, Oriya, Sinhala, Tamil, Telugu, Thai,
//! and its languages (`whatlang::Lang`, with explicit discriminants) from
//! Esperanto (0) to Armenian (68). The laws below pin the library's tables to
//! those numbers.

use vstd::prelude::*;

use super::script_language::{profile_of, Language, Script};
use super::{detected_language, detected_script, language_answer, resolved_language, whatlang_language, whatlang_script};

verus! {

/// A text whose detected `whatlang` script is a given script has the script
/// of the same name; the Hiragana, Katakana and Mandarin scripts are `Cj`; a
/// text in no known script is `Other`.
pub proof fn lemma_detected_script_is_the_script_of_the_same_name(text: Seq<char>)
    ensures
        whatlang_script(text) is None ==> detected_script(text) == Script::Other,
        whatlang_script(text) == Some(0u8) ==> detected_script(text) == Script::Arabic,
        whatlang_script(text) == Some(1u8) ==> detected_script(text) == Script::Armenian,
        whatlang_script(text) == Some(2u8) ==> detected_script(text) == Script::Bengali,
        whatlang_script(text) == Some(3u8) ==> detected_script(text) == Script::Cyrillic,
        whatlang_script(text) == Some(4u8) ==> detected_script(text) == Script::Devanagari,
        whatlang_script(text) == Some(5u8) ==> detected_script(text) == Script::Ethiopic,
        whatlang_script(text) == Some(6u8) ==> detected_script(text) == Script::Georgian,
        whatlang_script(text) == Some(7u8) ==> detected_script(text) == Script::Greek,
        whatlang_script(text) == Some(8u8) ==> detected_script(text) == Script::Gujarati,
        whatlang_script(text) == Some(9u8) ==> detected_script(text) == Script::Gurmukhi,
        whatlang_script(text) == Some(10u8) ==> detected_script(text) == Script::Hangul,
        whatlang_script(text) == Some(11u8) ==> detected_script(text) == Script::Hebrew,
        whatlang_script(text) == Some(12u8) ==> detected_script(text) == Script::Cj,
        whatlang_script(text) == Some(13u8) ==> detected_script(text) == Script::Kannada,
        whatlang_script(text) == Some(14u8) ==> detected_script(text) == Script::Cj,
        whatlang_script(text) == Some(15u8) ==> detected_script(text) == Script::Khmer,
        whatlang_script(text) == Some(16u8) ==> detected_script(text) == Script::Latin,
        whatlang_script(text) == Some(17u8) ==> detected_script(text) == Script::Malayalam,
        whatlang_script(text) == Some(18u8) ==> detected_script(text) == Script::Cj,
        whatlang_script(text) == Some(19u8) ==> detected_script(text) == Script::Myanmar,
        whatlang_script(text) == Some(20u8) ==> detected_script(text) == Script::Oriya,
        whatlang_script(text) == Some(21u8) ==> detected_script(text) == Script::Sinhala,
        whatlang_script(text) == Some(22u8) ==> detected_script(text) == Script::Tamil,
        whatlang_script(text) == Some(23u8) ==> detected_script(text) == Script::Telugu,
        whatlang_script(text) == Some(24u8) ==> detected_script(text) == Script::Thai,
{
}

/// Each language is recognised by the `whatlang` language of the same ISO
/// 639-3 code, numbered as in `whatlang::Lang`; Nynorsk by the Bokmal one;
/// Kazakh, which `whatlang` lacks, by none.
pub proof fn lemma_profile_is_the_whatlang_language_of_the_same_code()
    ensures
        profile_of(Language::Epo) == Some(0u8),
        profile_of(Language::Eng) == Some(1u8),
        profile_of(Language::Rus) == Some(2u8),
        profile_of(Language::Cmn) == Some(3u8),
        profile_of(Language::Spa) == Some(4u8),
        profile_of(Language::Por) == Some(5u8),
        profile_of(Language::Ita) == Some(6u8),
        profile_of(Language::Ben) == Some(7u8),
        profile_of(Language::Fra) == Some(8u8),
        profile_of(Language::Deu) == Some(9u8),
        profile_of(Language::Ukr) == Some(10u8),
        profile_of(Language::Kat) == Some(11u8),
        profile_of(Language::Ara) == Some(12u8),
        profile_of(Language::Hin) == Some(13u8),
        profile_of(Language::Jpn) == Some(14u8),
        profile_of(Language::Heb) == Some(15u8),
        profile_of(Language::Yid) == Some(16u8),
        profile_of(Language::Pol) == Some(17u8),
        profile_of(Language::Amh) == Some(18u8),
        profile_of(Language::Jav) == Some(19u8),
        profile_of(Language::Kor) == Some(20u8),
        profile_of(Language::Nob) == Some(21u8),
        profile_of(Language::Dan) == Some(22u8),
        profile_of(Language::Swe) == Some(23u8),
        profile_of(Language::Fin) == Some(24u8),
        profile_of(Language::Tur) == Some(25u8),
        profile_of(Language::Nld) == Some(26u8),
        profile_of(Language::Hun) == Some(27u8),
        profile_of(Language::Ces) == Some(28u8),
        profile_of(Language::Ell) == Some(29u8),
        profile_of(Language::Bul) == Some(30u8),
        profile_of(Language::Bel) == Some(31u8),
        profile_of(Language::Mar) == Some(32u8),
        profile_of(Language::Kan) == Some(33u8),
        profile_of(Language::Ron) == Some(34u8),
        profile_of(Language::Slv) == Some(35u8),
        profile_of(Language::Hrv) == Some(36u8),
        profile_of(Language::Srp) == Some(37u8),
        profile_of(Language::Mkd) == Some(38u8),
        profile_of(Language::Lit) == Some(39u8),
        profile_of(Language::Lav) == Some(40u8),
        profile_of(Language::Est) == Some(41u8),
        profile_of(Language::Tam) == Some(42u8),
        profile_of(Language::Vie) == Some(43u8),
        profile_of(Language::Urd) == Some(44u8),
        profile_of(Language::Tha) == Some(45u8),
        profile_of(Language::Guj) == Some(46u8),
        profile_of(Language::Uzb) == Some(47u8),
        profile_of(Language::Pan) == Some(48u8),
        profile_of(Language::Aze) == Some(49u8),
        profile_of(Language::Ind) == Some(50u8),
        profile_of(Language::Tel) == Some(51u8),
        profile_of(Language::Pes) == Some(52u8),
        profile_of(Language::Mal) == Some(53u8),
        profile_of(Language::Ori) == Some(54u8),
        profile_of(Language::Mya) == Some(55u8),
        profile_of(Language::Nep) == Some(56u8),
        profile_of(Language::Sin) == Some(57u8),
        profile_of(Language::Khm) == Some(58u8),
        profile_of(Language::Tuk) == Some(59u8),
        profile_of(Language::Aka) == Some(60u8),
        profile_of(Language::Zul) == Some(61u8),
        profile_of(Language::Sna) == Some(62u8),
        profile_of(Language::Afr) == Some(63u8),
        profile_of(Language::Lat) == Some(64u8),
        profile_of(Language::Slk) == Some(65u8),
        profile_of(Language::Cat) == Some(66u8),
        profile_of(Language::Tgl) == Some(67u8),
        profile_of(Language::Hye) == Some(68u8),
        profile_of(Language::Nno) == Some(21u8),
        profile_of(Language::Kaz) is None,
{
}

/// Without an allow list, a detected `whatlang` language is answered by the
/// language of the same ISO 639-3 code.
pub proof fn lemma_unlisted_detection_answers_the_language_of_the_same_code()
    ensures
        resolved_language(0u8, None) == Language::Epo,
        resolved_language(1u8, None) == Language::Eng,
        resolved_language(2u8, None) == Language::Rus,
        resolved_language(3u8, None) == Language::Cmn,
        resolved_language(4u8, None) == Language::Spa,
        resolved_language(5u8, None) == Language::Por,
        resolved_language(6u8, None) == Language::Ita,
        resolved_language(7u8, None) == Language::Ben,
        resolved_language(8u8, None) == Language::Fra,
        resolved_language(9u8, None) == Language::Deu,
        resolved_language(10u8, None) == Language::Ukr,
        resolved_language(11u8, None) == Language::Kat,
        resolved_language(12u8, None) == Language::Ara,
        resolved_language(13u8, None) == Language::Hin,
        resolved_language(14u8, None) == Language::Jpn,
        resolved_language(15u8, None) == Language::Heb,
        resolved_language(16u8, None) == Language::Yid,
        resolved_language(17u8, None) == Language::Pol,
        resolved_language(18u8, None) == Language::Amh,
        resolved_language(19u8, None) == Language::Jav,
        resolved_language(20u8, None) == Language::Kor,
        resolved_language(21u8, None) == Language::Nob,
        resolved_language(22u8, None) == Language::Dan,
        resolved_language(23u8, None) == Language::Swe,
        resolved_language(24u8, None) == Language::Fin,
        resolved_language(25u8, None) == Language::Tur,
        resolved_language(26u8, None) == Language::Nld,
        resolved_language(27u8, None) == Language::Hun,
        resolved_language(28u8, None) == Language::Ces,
        resolved_language(29u8, None) == Language::Ell,
        resolved_language(30u8, None) == Language::Bul,
        resolved_language(31u8, None) == Language::Bel,
        resolved_language(32u8, None) == Language::Mar,
        resolved_language(33u8, None) == Language::Kan,
        resolved_language(34u8, None) == Language::Ron,
        resolved_language(35u8, None) == Language::Slv,
        resolved_language(36u8, None) == Language::Hrv,
        resolved_language(37u8, None) == Language::Srp,
        resolved_language(38u8, None) == Language::Mkd,
        resolved_language(39u8, None) == Language::Lit,
        resolved_language(40u8, None) == Language::Lav,
        resolved_language(41u8, None) == Language::Est,
        resolved_language(42u8, None) == Language::Tam,
        resolved_language(43u8, None) == Language::Vie,
        resolved_language(44u8, None) == Language::Urd,
        resolved_language(45u8, None) == Language::Tha,
        resolved_language(46u8, None) == Language::Guj,
        resolved_language(47u8, None) == Language::Uzb,
        resolved_language(48u8, None) == Language::Pan,
        resolved_language(49u8, None) == Language::Aze,
        resolved_language(50u8, None) == Language::Ind,
        resolved_language(51u8, None) == Language::Tel,
        resolved_language(52u8, None) == Language::Pes,
        resolved_language(53u8, None) == Language::Mal,
        resolved_language(54u8, None) == Language::Ori,
        resolved_language(55u8, None) == Language::Mya,
        resolved_language(56u8, None) == Language::Nep,
        resolved_language(57u8, None) == Language::Sin,
        resolved_language(58u8, None) == Language::Khm,
        resolved_language(59u8, None) == Language::Tuk,
        resolved_language(60u8, None) == Language::Aka,
        resolved_language(61u8, None) == Language::Zul,
        resolved_language(62u8, None) == Language::Sna,
        resolved_language(63u8, None) == Language::Afr,
        resolved_language(64u8, None) == Language::Lat,
        resolved_language(65u8, None) == Language::Slk,
        resolved_language(66u8, None) == Language::Cat,
        resolved_language(67u8, None) == Language::Tgl,
        resolved_language(68u8, None) == Language::Hye,
{
}

/// Without an allow list and with no language known, only Latin text goes
/// without a language: text in any other script (or in none) gets the
/// language that `whatlang` detects, as the language of the same code, and
/// no language only where `whatlang` detects none.
pub proof fn lemma_unlisted_non_latin_text_is_detected(text: Seq<char>)
    ensures
        detected_script(text) == Script::Latin ==> language_answer(text, None, None) is None,
        detected_script(text) != Script::Latin ==> language_answer(text, None, None)
            == detected_language(text, None),
        detected_script(text) != Script::Latin ==> (language_answer(text, None, None) is None
            <==> whatlang_language(text) is None),
        forall|code: u8|
            detected_script(text) != Script::Latin && whatlang_language(text) == Some(code) && code
                < 69 ==> #[trigger] profile_of(language_answer(text, None, None).unwrap()) == Some(
                code,
            ),
{
    if detected_script(text) != Script::Latin {
        if let Some(code) = whatlang_language(text) {
            if code < 69 {
                super::laws::lemma_resolution_keeps_profile(code, None);
            }
        }
    }
}

} // verus!
