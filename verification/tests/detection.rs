use charabia::{resolve_language, Detect, Language, Script, StrDetection};

#[test]
fn new_detection_has_found_nothing() {
    let detection = StrDetection::new("Привет", None);
    assert_eq!(detection.script, None);
    assert_eq!(detection.language, None);
}

#[test]
fn script_is_detected_and_kept() {
    let mut detection = StrDetection::new("Благодаря Эсперанто вы обретете друзей", None);
    assert_eq!(detection.script(), Script::Cyrillic);
    assert_eq!(detection.script, Some(Script::Cyrillic));
    assert_eq!(detection.script(), Script::Cyrillic);
}

#[test]
fn known_script_is_not_detected_again() {
    let mut detection = StrDetection::new("Hello world", None);
    detection.script = Some(Script::Thai);
    assert_eq!(detection.script(), Script::Thai);
}

#[test]
fn text_without_script_is_other() {
    assert_eq!(StrDetection::new("", None).script(), Script::Other);
    assert_eq!(StrDetection::new("123 456 !?", None).script(), Script::Other);
}

#[test]
fn japanese_and_chinese_scripts_are_cj() {
    assert_eq!(StrDetection::new("こんにちは", None).script(), Script::Cj);
    assert_eq!(StrDetection::new("カタカナ", None).script(), Script::Cj);
    assert_eq!(StrDetection::new("水是生命之源", None).script(), Script::Cj);
    assert_eq!(StrDetection::new("한국어 텍스트", None).script(), Script::Hangul);
}

#[test]
fn latin_text_without_allow_list_has_no_language() {
    let mut detection = StrDetection::new("There is no reason not to learn Esperanto.", None);
    assert_eq!(detection.language(), None);
    assert_eq!(detection.language, None);
    // language() does not record the script it looked at
    assert_eq!(detection.script, None);
}

#[test]
fn non_latin_text_is_detected() {
    let mut detection = StrDetection::new("Та нічого, все нормально. А в тебе як?", None);
    assert_eq!(detection.language(), Some(Language::Ukr));
    assert_eq!(detection.language, Some(Language::Ukr));
    assert_eq!(detection.language(), Some(Language::Ukr));
}

#[test]
fn single_allowed_language_is_the_answer() {
    let allow = [Language::Ukr];
    let mut detection = StrDetection::new("There is no reason not to learn Esperanto.", Some(&allow));
    assert_eq!(detection.language(), Some(Language::Ukr));
}

#[test]
fn known_language_is_kept() {
    let mut detection = StrDetection::new("Мы хотим видеть дальше", None);
    detection.language = Some(Language::Deu);
    assert_eq!(detection.language(), Some(Language::Deu));
}

#[test]
fn latin_text_with_allow_list_is_detected() {
    let allow = [Language::Epo, Language::Ukr];
    let mut detection = StrDetection::new("Mi ne scias!", Some(&allow));
    assert_eq!(detection.language(), Some(Language::Epo));
}

const NORWEGIAN: &str = "Jeg har ikke tid til å snakke med deg nå, men vi kan møtes i morgen på kontoret.";

#[test]
fn nynorsk_is_answered_from_the_allow_list() {
    let allow = [Language::Eng, Language::Nno];
    assert_eq!(NORWEGIAN.detect(Some(&allow)).language(), Some(Language::Nno));
}

#[test]
fn shared_profile_answers_the_first_language_whatever_the_order() {
    let forward = [Language::Nob, Language::Nno, Language::Eng];
    let backward = [Language::Eng, Language::Nno, Language::Nob];
    assert_eq!(NORWEGIAN.detect(Some(&forward)).language(), Some(Language::Nob));
    assert_eq!(NORWEGIAN.detect(Some(&backward)).language(), Some(Language::Nob));
}

#[test]
fn resolution_of_a_detected_profile() {
    let nob: u8 = Language::Nob.whatlang().unwrap();
    assert_eq!(nob, 21);
    assert_eq!(resolve_language(nob, None), Language::Nob);
    assert_eq!(resolve_language(nob, Some(&[Language::Nno])), Language::Nno);
    assert_eq!(resolve_language(nob, Some(&[Language::Nno, Language::Nob])), Language::Nob);
    assert_eq!(resolve_language(nob, Some(&[Language::Nob, Language::Nno])), Language::Nob);
    // no language of the list has the profile: the language that it names
    assert_eq!(resolve_language(nob, Some(&[Language::Eng, Language::Deu])), Language::Nob);
    assert_eq!(resolve_language(nob, Some(&[])), Language::Nob);
}

#[test]
fn kartvelian_text_is_georgian_whatever_the_allow_list() {
    let allow = [Language::Eng, Language::Deu];
    let mut detection = StrDetection::new("ქართული ენა", Some(&allow));
    assert_eq!(detection.language(), Some(Language::Kat));
}

#[test]
fn profiles_and_languages_correspond() {
    for code in 0u8..69 {
        let language = Language::from_whatlang(code);
        assert_eq!(language.whatlang(), Some(code));
        assert_ne!(language, Language::Nno);
    }
    assert_eq!(Language::from_whatlang(0), Language::Epo);
    assert_eq!(Language::from_whatlang(68), Language::Hye);
    assert_eq!(Language::Nno.whatlang(), Language::Nob.whatlang());
    assert_eq!(Language::Kaz.whatlang(), None);
}

#[test]
fn languages_without_profile_are_left_out_of_detection() {
    // Kazakh has no whatlang profile: detection chooses among the others
    let allow = [Language::Kaz, Language::Rus];
    let mut detection = StrDetection::new("Мы хотим видеть дальше, чем окна дома напротив", Some(&allow));
    assert_eq!(detection.language(), Some(Language::Rus));
    // an allow list of Kazakh alone answers Kazakh
    let only = [Language::Kaz];
    assert_eq!(StrDetection::new("Сәлеметсіз бе", Some(&only)).language(), Some(Language::Kaz));
    // a detected profile is never answered by Kazakh
    assert_eq!(resolve_language(2, Some(&[Language::Kaz])), Language::Rus);
}

#[test]
fn rank_is_the_order_of_languages() {
    let mut all: Vec<Language> = (0u8..69).map(Language::from_whatlang).collect();
    all.push(Language::Nno);
    all.push(Language::Kaz);
    for a in &all {
        for b in &all {
            assert_eq!(a.rank() < b.rank(), a < b, "{:?} {:?}", a, b);
            assert_eq!(a.rank() == b.rank(), a == b);
        }
    }
    assert!(Language::Nob < Language::Nno && Language::Nno < Language::Dan);
    assert_eq!(Language::Nno.rank(), 22);
    assert_eq!(Language::Kaz.rank(), 70);
    assert!(Language::Hye < Language::Kaz);
}

#[test]
fn scripts_of_profiles() {
    assert_eq!(Script::from_whatlang(0), Script::Arabic);
    assert_eq!(Script::from_whatlang(3), Script::Cyrillic);
    assert_eq!(Script::from_whatlang(12), Script::Cj);
    assert_eq!(Script::from_whatlang(14), Script::Cj);
    assert_eq!(Script::from_whatlang(16), Script::Latin);
    assert_eq!(Script::from_whatlang(18), Script::Cj);
    assert_eq!(Script::from_whatlang(24), Script::Thai);
    assert_eq!(Script::default(), Script::Other);
}

#[test]
fn detect_makes_a_fresh_detection() {
    let text: &str = "Кириллица";
    let mut detection = text.detect(None);
    assert_eq!(detection.script, None);
    assert_eq!(detection.script(), Script::Cyrillic);
}
