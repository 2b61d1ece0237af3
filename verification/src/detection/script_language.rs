//! The writing systems and the languages that detection speaks of, and how
//! they stand to the profiles of the `whatlang` detector.
//!
//! `whatlang` numbers its scripts and its languages in the order of its own
//! enums; the library speaks of them by those numbers, here called profile
//! codes.

use vstd::prelude::*;

verus! {

/// Number of script profiles that `whatlang` knows.
pub const WHATLANG_SCRIPT_COUNT: u8 = 25;

/// Number of language profiles that `whatlang` knows.
pub const WHATLANG_LANG_COUNT: u8 = 69;

/// A writing system.
///
/// The Chinese and Japanese writing systems (Han, Hiragana, Katakana) are one
/// script here, `Cj`; text in no known writing system has the script `Other`.
#[derive(Debug, Clone, Copy, PartialEq, Eq, Structural, Hash, PartialOrd, Ord)]
pub enum Script {
    Arabic,
    Armenian,
    Bengali,
    Cyrillic,
    Devanagari,
    Ethiopic,
    Georgian,
    Greek,
    Gujarati,
    Gurmukhi,
    Hangul,
    Hebrew,
    Kannada,
    Khmer,
    Latin,
    Malayalam,
    Myanmar,
    Oriya,
    Sinhala,
    Tamil,
    Telugu,
    Thai,
    Cj,
    Other,
}

impl Default for Script {
    /// The script of text in no known writing system.
    fn default() -> (r: Self)
        ensures
            r == Script::Other,
    {
        Script::Other
    }
}

/// The script that a `whatlang` script profile stands for.
pub open spec fn script_of_profile(code: u8) -> Script {
    match code {
        0u8 => Script::Arabic,
        1u8 => Script::Armenian,
        2u8 => Script::Bengali,
        3u8 => Script::Cyrillic,
        4u8 => Script::Devanagari,
        5u8 => Script::Ethiopic,
        6u8 => Script::Georgian,
        7u8 => Script::Greek,
        8u8 => Script::Gujarati,
        9u8 => Script::Gurmukhi,
        10u8 => Script::Hangul,
        11u8 => Script::Hebrew,
        12u8 => Script::Cj,
        13u8 => Script::Kannada,
        14u8 => Script::Cj,
        15u8 => Script::Khmer,
        16u8 => Script::Latin,
        17u8 => Script::Malayalam,
        18u8 => Script::Cj,
        19u8 => Script::Myanmar,
        20u8 => Script::Oriya,
        21u8 => Script::Sinhala,
        22u8 => Script::Tamil,
        23u8 => Script::Telugu,
        24u8 => Script::Thai,
        _ => Script::Other,
    }
}

impl Script {
    /// The script that the `whatlang` script profile `code` stands for:
    /// Hiragana, Katakana and Mandarin become `Cj`, every other profile the
    /// script of the same name.
    pub fn from_whatlang(code: u8) -> (r: Script)
        requires
            code < WHATLANG_SCRIPT_COUNT,
        ensures
            r == script_of_profile(code),
    {
        match code {
            0u8 => Script::Arabic,
            1u8 => Script::Armenian,
            2u8 => Script::Bengali,
            3u8 => Script::Cyrillic,
            4u8 => Script::Devanagari,
            5u8 => Script::Ethiopic,
            6u8 => Script::Georgian,
            7u8 => Script::Greek,
            8u8 => Script::Gujarati,
            9u8 => Script::Gurmukhi,
            10u8 => Script::Hangul,
            11u8 => Script::Hebrew,
            12u8 => Script::Cj,
            13u8 => Script::Kannada,
            14u8 => Script::Cj,
            15u8 => Script::Khmer,
            16u8 => Script::Latin,
            17u8 => Script::Malayalam,
            18u8 => Script::Cj,
            19u8 => Script::Myanmar,
            20u8 => Script::Oriya,
            21u8 => Script::Sinhala,
            22u8 => Script::Tamil,
            23u8 => Script::Telugu,
            24u8 => Script::Thai,
            _ => Script::Other,
        }
    }
}

/// A language, named by its ISO 639-3 code.
///
/// The order of the variants is the order of the languages (see
/// [`language_rank`]).
#[derive(Debug, Clone, Copy, PartialEq, Eq, Structural, Hash, PartialOrd, Ord)]
pub enum Language {
    /// Esperanto
    Epo,
    /// English
    Eng,
    /// Russian
    Rus,
    /// Mandarin Chinese
    Cmn,
    /// Spanish
    Spa,
    /// Portuguese
    Por,
    /// Italian
    Ita,
    /// Bengali
    Ben,
    /// French
    Fra,
    /// German
    Deu,
    /// Ukrainian
    Ukr,
    /// Georgian
    Kat,
    /// Arabic
    Ara,
    /// Hindi
    Hin,
    /// Japanese
    Jpn,
    /// Hebrew
    Heb,
    /// Yiddish
    Yid,
    /// Polish
    Pol,
    /// Amharic
    Amh,
    /// Javanese
    Jav,
    /// Korean
    Kor,
    /// Norwegian Bokmal
    Nob,
    /// Norwegian Nynorsk, which `whatlang` recognises by its Bokmal profile
    Nno,
    /// Danish
    Dan,
    /// Swedish
    Swe,
    /// Finnish
    Fin,
    /// Turkish
    Tur,
    /// Dutch
    Nld,
    /// Hungarian
    Hun,
    /// Czech
    Ces,
    /// Greek
    Ell,
    /// Bulgarian
    Bul,
    /// Belarusian
    Bel,
    /// Marathi
    Mar,
    /// Kannada
    Kan,
    /// Romanian
    Ron,
    /// Slovene
    Slv,
    /// Croatian
    Hrv,
    /// Serbian
    Srp,
    /// Macedonian
    Mkd,
    /// Lithuanian
    Lit,
    /// Latvian
    Lav,
    /// Estonian
    Est,
    /// Tamil
    Tam,
    /// Vietnamese
    Vie,
    /// Urdu
    Urd,
    /// Thai
    Tha,
    /// Gujarati
    Guj,
    /// Uzbek
    Uzb,
    /// Punjabi
    Pan,
    /// Azerbaijani
    Aze,
    /// Indonesian
    Ind,
    /// Telugu
    Tel,
    /// Persian
    Pes,
    /// Malayalam
    Mal,
    /// Oriya
    Ori,
    /// Burmese
    Mya,
    /// Nepali
    Nep,
    /// Sinhalese
    Sin,
    /// Khmer
    Khm,
    /// Turkmen
    Tuk,
    /// Akan
    Aka,
    /// Zulu
    Zul,
    /// Shona
    Sna,
    /// Afrikaans
    Afr,
    /// Latin
    Lat,
    /// Slovak
    Slk,
    /// Catalan
    Cat,
    /// Tagalog
    Tgl,
    /// Armenian
    Hye,
    /// Kazakh, which `whatlang` has no profile for
    Kaz,
}

/// The `whatlang` language profile by which a language is recognised, if
/// `whatlang` has one for it.
pub open spec fn profile_of(language: Language) -> Option<u8> {
    match language {
        Language::Epo => Some(0u8),
        Language::Eng => Some(1u8),
        Language::Rus => Some(2u8),
        Language::Cmn => Some(3u8),
        Language::Spa => Some(4u8),
        Language::Por => Some(5u8),
        Language::Ita => Some(6u8),
        Language::Ben => Some(7u8),
        Language::Fra => Some(8u8),
        Language::Deu => Some(9u8),
        Language::Ukr => Some(10u8),
        Language::Kat => Some(11u8),
        Language::Ara => Some(12u8),
        Language::Hin => Some(13u8),
        Language::Jpn => Some(14u8),
        Language::Heb => Some(15u8),
        Language::Yid => Some(16u8),
        Language::Pol => Some(17u8),
        Language::Amh => Some(18u8),
        Language::Jav => Some(19u8),
        Language::Kor => Some(20u8),
        Language::Nob => Some(21u8),
        Language::Nno => Some(21u8),
        Language::Dan => Some(22u8),
        Language::Swe => Some(23u8),
        Language::Fin => Some(24u8),
        Language::Tur => Some(25u8),
        Language::Nld => Some(26u8),
        Language::Hun => Some(27u8),
        Language::Ces => Some(28u8),
        Language::Ell => Some(29u8),
        Language::Bul => Some(30u8),
        Language::Bel => Some(31u8),
        Language::Mar => Some(32u8),
        Language::Kan => Some(33u8),
        Language::Ron => Some(34u8),
        Language::Slv => Some(35u8),
        Language::Hrv => Some(36u8),
        Language::Srp => Some(37u8),
        Language::Mkd => Some(38u8),
        Language::Lit => Some(39u8),
        Language::Lav => Some(40u8),
        Language::Est => Some(41u8),
        Language::Tam => Some(42u8),
        Language::Vie => Some(43u8),
        Language::Urd => Some(44u8),
        Language::Tha => Some(45u8),
        Language::Guj => Some(46u8),
        Language::Uzb => Some(47u8),
        Language::Pan => Some(48u8),
        Language::Aze => Some(49u8),
        Language::Ind => Some(50u8),
        Language::Tel => Some(51u8),
        Language::Pes => Some(52u8),
        Language::Mal => Some(53u8),
        Language::Ori => Some(54u8),
        Language::Mya => Some(55u8),
        Language::Nep => Some(56u8),
        Language::Sin => Some(57u8),
        Language::Khm => Some(58u8),
        Language::Tuk => Some(59u8),
        Language::Aka => Some(60u8),
        Language::Zul => Some(61u8),
        Language::Sna => Some(62u8),
        Language::Afr => Some(63u8),
        Language::Lat => Some(64u8),
        Language::Slk => Some(65u8),
        Language::Cat => Some(66u8),
        Language::Tgl => Some(67u8),
        Language::Hye => Some(68u8),
        Language::Kaz => None,
    }
}

/// The language that a `whatlang` language profile names.
pub open spec fn language_of_profile(code: u8) -> Language {
    match code {
        0u8 => Language::Epo,
        1u8 => Language::Eng,
        2u8 => Language::Rus,
        3u8 => Language::Cmn,
        4u8 => Language::Spa,
        5u8 => Language::Por,
        6u8 => Language::Ita,
        7u8 => Language::Ben,
        8u8 => Language::Fra,
        9u8 => Language::Deu,
        10u8 => Language::Ukr,
        11u8 => Language::Kat,
        12u8 => Language::Ara,
        13u8 => Language::Hin,
        14u8 => Language::Jpn,
        15u8 => Language::Heb,
        16u8 => Language::Yid,
        17u8 => Language::Pol,
        18u8 => Language::Amh,
        19u8 => Language::Jav,
        20u8 => Language::Kor,
        21u8 => Language::Nob,
        22u8 => Language::Dan,
        23u8 => Language::Swe,
        24u8 => Language::Fin,
        25u8 => Language::Tur,
        26u8 => Language::Nld,
        27u8 => Language::Hun,
        28u8 => Language::Ces,
        29u8 => Language::Ell,
        30u8 => Language::Bul,
        31u8 => Language::Bel,
        32u8 => Language::Mar,
        33u8 => Language::Kan,
        34u8 => Language::Ron,
        35u8 => Language::Slv,
        36u8 => Language::Hrv,
        37u8 => Language::Srp,
        38u8 => Language::Mkd,
        39u8 => Language::Lit,
        40u8 => Language::Lav,
        41u8 => Language::Est,
        42u8 => Language::Tam,
        43u8 => Language::Vie,
        44u8 => Language::Urd,
        45u8 => Language::Tha,
        46u8 => Language::Guj,
        47u8 => Language::Uzb,
        48u8 => Language::Pan,
        49u8 => Language::Aze,
        50u8 => Language::Ind,
        51u8 => Language::Tel,
        52u8 => Language::Pes,
        53u8 => Language::Mal,
        54u8 => Language::Ori,
        55u8 => Language::Mya,
        56u8 => Language::Nep,
        57u8 => Language::Sin,
        58u8 => Language::Khm,
        59u8 => Language::Tuk,
        60u8 => Language::Aka,
        61u8 => Language::Zul,
        62u8 => Language::Sna,
        63u8 => Language::Afr,
        64u8 => Language::Lat,
        65u8 => Language::Slk,
        66u8 => Language::Cat,
        67u8 => Language::Tgl,
        68u8 => Language::Hye,
        _ => Language::Hye,
    }
}

/// The position of a language in the order of the variants of [`Language`]:
/// the languages named by `whatlang` in its own order, with Nynorsk right
/// after Bokmal, then Kazakh.
pub open spec fn language_rank(language: Language) -> int {
    match profile_of(language) {
        None => 70,
        Some(code) => if language is Nno {
            22
        } else if code <= 21 {
            code as int
        } else {
            code + 1
        },
    }
}

/// Every language but Nynorsk and Kazakh is the language that its own profile
/// names.
pub proof fn lemma_language_of_own_profile(language: Language)
    requires
        !(language is Nno),
        !(language is Kaz),
    ensures
        language_of_profile(profile_of(language).unwrap()) == language,
{
    match language {
        Language::Epo => {},
        Language::Eng => {},
        Language::Rus => {},
        Language::Cmn => {},
        Language::Spa => {},
        Language::Por => {},
        Language::Ita => {},
        Language::Ben => {},
        Language::Fra => {},
        Language::Deu => {},
        Language::Ukr => {},
        Language::Kat => {},
        Language::Ara => {},
        Language::Hin => {},
        Language::Jpn => {},
        Language::Heb => {},
        Language::Yid => {},
        Language::Pol => {},
        Language::Amh => {},
        Language::Jav => {},
        Language::Kor => {},
        Language::Nob => {},
        Language::Dan => {},
        Language::Swe => {},
        Language::Fin => {},
        Language::Tur => {},
        Language::Nld => {},
        Language::Hun => {},
        Language::Ces => {},
        Language::Ell => {},
        Language::Bul => {},
        Language::Bel => {},
        Language::Mar => {},
        Language::Kan => {},
        Language::Ron => {},
        Language::Slv => {},
        Language::Hrv => {},
        Language::Srp => {},
        Language::Mkd => {},
        Language::Lit => {},
        Language::Lav => {},
        Language::Est => {},
        Language::Tam => {},
        Language::Vie => {},
        Language::Urd => {},
        Language::Tha => {},
        Language::Guj => {},
        Language::Uzb => {},
        Language::Pan => {},
        Language::Aze => {},
        Language::Ind => {},
        Language::Tel => {},
        Language::Pes => {},
        Language::Mal => {},
        Language::Ori => {},
        Language::Mya => {},
        Language::Nep => {},
        Language::Sin => {},
        Language::Khm => {},
        Language::Tuk => {},
        Language::Aka => {},
        Language::Zul => {},
        Language::Sna => {},
        Language::Afr => {},
        Language::Lat => {},
        Language::Slk => {},
        Language::Cat => {},
        Language::Tgl => {},
        Language::Hye => {},
        Language::Nno => {},
        Language::Kaz => {},
    }
}

/// A profile code names a language whose profile it is.
pub proof fn lemma_profile_of_named_language(code: u8)
    requires
        code < WHATLANG_LANG_COUNT,
    ensures
        profile_of(language_of_profile(code)) == Some(code),
        !(language_of_profile(code) is Nno),
{
}

/// Two languages of the same rank are the same language.
pub proof fn lemma_rank_injective(a: Language, b: Language)
    requires
        language_rank(a) == language_rank(b),
    ensures
        a == b,
{
    if !(a is Nno) && !(b is Nno) && !(a is Kaz) && !(b is Kaz) {
        lemma_language_of_own_profile(a);
        lemma_language_of_own_profile(b);
    }
}

impl Language {
    /// The `whatlang` profile by which this language is recognised.
    ///
    /// Nynorsk shares the Bokmal profile; Kazakh has none.
    pub fn whatlang(&self) -> (r: Option<u8>)
        ensures
            r == profile_of(*self),
            r matches Some(code) ==> code < WHATLANG_LANG_COUNT,
    {
        match self {
            Language::Epo => Some(0u8),
            Language::Eng => Some(1u8),
            Language::Rus => Some(2u8),
            Language::Cmn => Some(3u8),
            Language::Spa => Some(4u8),
            Language::Por => Some(5u8),
            Language::Ita => Some(6u8),
            Language::Ben => Some(7u8),
            Language::Fra => Some(8u8),
            Language::Deu => Some(9u8),
            Language::Ukr => Some(10u8),
            Language::Kat => Some(11u8),
            Language::Ara => Some(12u8),
            Language::Hin => Some(13u8),
            Language::Jpn => Some(14u8),
            Language::Heb => Some(15u8),
            Language::Yid => Some(16u8),
            Language::Pol => Some(17u8),
            Language::Amh => Some(18u8),
            Language::Jav => Some(19u8),
            Language::Kor => Some(20u8),
            Language::Nob => Some(21u8),
            Language::Nno => Some(21u8),
            Language::Dan => Some(22u8),
            Language::Swe => Some(23u8),
            Language::Fin => Some(24u8),
            Language::Tur => Some(25u8),
            Language::Nld => Some(26u8),
            Language::Hun => Some(27u8),
            Language::Ces => Some(28u8),
            Language::Ell => Some(29u8),
            Language::Bul => Some(30u8),
            Language::Bel => Some(31u8),
            Language::Mar => Some(32u8),
            Language::Kan => Some(33u8),
            Language::Ron => Some(34u8),
            Language::Slv => Some(35u8),
            Language::Hrv => Some(36u8),
            Language::Srp => Some(37u8),
            Language::Mkd => Some(38u8),
            Language::Lit => Some(39u8),
            Language::Lav => Some(40u8),
            Language::Est => Some(41u8),
            Language::Tam => Some(42u8),
            Language::Vie => Some(43u8),
            Language::Urd => Some(44u8),
            Language::Tha => Some(45u8),
            Language::Guj => Some(46u8),
            Language::Uzb => Some(47u8),
            Language::Pan => Some(48u8),
            Language::Aze => Some(49u8),
            Language::Ind => Some(50u8),
            Language::Tel => Some(51u8),
            Language::Pes => Some(52u8),
            Language::Mal => Some(53u8),
            Language::Ori => Some(54u8),
            Language::Mya => Some(55u8),
            Language::Nep => Some(56u8),
            Language::Sin => Some(57u8),
            Language::Khm => Some(58u8),
            Language::Tuk => Some(59u8),
            Language::Aka => Some(60u8),
            Language::Zul => Some(61u8),
            Language::Sna => Some(62u8),
            Language::Afr => Some(63u8),
            Language::Lat => Some(64u8),
            Language::Slk => Some(65u8),
            Language::Cat => Some(66u8),
            Language::Tgl => Some(67u8),
            Language::Hye => Some(68u8),
            Language::Kaz => None,
        }
    }

    /// The language that the `whatlang` language profile `code` names.
    pub fn from_whatlang(code: u8) -> (r: Language)
        requires
            code < WHATLANG_LANG_COUNT,
        ensures
            r == language_of_profile(code),
            !(r is Nno),
            profile_of(r) == Some(code),
    {
        match code {
            0u8 => Language::Epo,
            1u8 => Language::Eng,
            2u8 => Language::Rus,
            3u8 => Language::Cmn,
            4u8 => Language::Spa,
            5u8 => Language::Por,
            6u8 => Language::Ita,
            7u8 => Language::Ben,
            8u8 => Language::Fra,
            9u8 => Language::Deu,
            10u8 => Language::Ukr,
            11u8 => Language::Kat,
            12u8 => Language::Ara,
            13u8 => Language::Hin,
            14u8 => Language::Jpn,
            15u8 => Language::Heb,
            16u8 => Language::Yid,
            17u8 => Language::Pol,
            18u8 => Language::Amh,
            19u8 => Language::Jav,
            20u8 => Language::Kor,
            21u8 => Language::Nob,
            22u8 => Language::Dan,
            23u8 => Language::Swe,
            24u8 => Language::Fin,
            25u8 => Language::Tur,
            26u8 => Language::Nld,
            27u8 => Language::Hun,
            28u8 => Language::Ces,
            29u8 => Language::Ell,
            30u8 => Language::Bul,
            31u8 => Language::Bel,
            32u8 => Language::Mar,
            33u8 => Language::Kan,
            34u8 => Language::Ron,
            35u8 => Language::Slv,
            36u8 => Language::Hrv,
            37u8 => Language::Srp,
            38u8 => Language::Mkd,
            39u8 => Language::Lit,
            40u8 => Language::Lav,
            41u8 => Language::Est,
            42u8 => Language::Tam,
            43u8 => Language::Vie,
            44u8 => Language::Urd,
            45u8 => Language::Tha,
            46u8 => Language::Guj,
            47u8 => Language::Uzb,
            48u8 => Language::Pan,
            49u8 => Language::Aze,
            50u8 => Language::Ind,
            51u8 => Language::Tel,
            52u8 => Language::Pes,
            53u8 => Language::Mal,
            54u8 => Language::Ori,
            55u8 => Language::Mya,
            56u8 => Language::Nep,
            57u8 => Language::Sin,
            58u8 => Language::Khm,
            59u8 => Language::Tuk,
            60u8 => Language::Aka,
            61u8 => Language::Zul,
            62u8 => Language::Sna,
            63u8 => Language::Afr,
            64u8 => Language::Lat,
            65u8 => Language::Slk,
            66u8 => Language::Cat,
            67u8 => Language::Tgl,
            68u8 => Language::Hye,
            _ => Language::Hye,
        }
    }

    /// The position of this language in the order of the variants.
    pub fn rank(&self) -> (r: u8)
        ensures
            r == language_rank(*self),
    {
        match self.whatlang() {
            None => 70,
            Some(code) => {
                if matches!(self, Language::Nno) {
                    22
                } else if code <= 21 {
                    code
                } else {
                    code + 1
                }
            },
        }
    }
}

} // verus!
