//! Properties of detection that span several calls or several inputs.

use vstd::prelude::*;

use super::script_language::{
    language_rank, lemma_profile_of_named_language, lemma_rank_injective, profile_of, Language,
    WHATLANG_LANG_COUNT,
};
use super::{
    language_answer, whatlang_language_among,
    detected_language, detected_profile, is_least_with_profile, language_post, profiles_of, resolved_language,
    script_post, StrDetection,
};

verus! {

/// Once the script has been asked for, asking again gives the same script and
/// leaves the recorded script as it was.
pub proof fn lemma_script_is_kept(
    d0: StrDetection,
    d1: StrDetection,
    r1: crate::Script,
    d2: StrDetection,
    r2: crate::Script,
)
    requires
        script_post(d0, d1, r1),
        script_post(d1, d2, r2),
    ensures
        r2 == r1,
        d2.known_script() == d1.known_script(),
{
}

/// Once a language has been found, asking again gives the same language.
pub proof fn lemma_language_is_kept(
    d0: StrDetection,
    d1: StrDetection,
    r1: Option<Language>,
    d2: StrDetection,
    r2: Option<Language>,
)
    requires
        language_post(d0, d1, r1),
        r1 is Some,
        language_post(d1, d2, r2),
    ensures
        r2 == r1,
{
}

/// With an allow list of a single language, that language is the language of
/// any text.
pub proof fn lemma_single_allowed_language(
    d0: StrDetection,
    d1: StrDetection,
    r: Option<Language>,
    language: Language,
)
    requires
        d0.known_language() is None,
        d0.allowed() == Some(seq![language]),
        language_post(d0, d1, r),
    ensures
        r == Some(language),
{
}

/// The language that a detected profile stands for does not depend on the
/// order of the allow list, nor on repetitions in it: two lists that hold the
/// same languages give the same language.
pub proof fn lemma_resolution_ignores_list_order(detected: u8, a: Seq<Language>, b: Seq<Language>)
    requires
        forall|language: Language| a.contains(language) <==> b.contains(language),
    ensures
        resolved_language(detected, Some(a)) == resolved_language(detected, Some(b)),
{
    assert forall|language: Language|
        is_least_with_profile(a, detected, language) == is_least_with_profile(b, detected, language) by {
    }
    if exists|language: Language| is_least_with_profile(a, detected, language) {
        let x = choose|language: Language| is_least_with_profile(a, detected, language);
        let y = choose|language: Language| is_least_with_profile(b, detected, language);
        assert(is_least_with_profile(b, detected, x));
        lemma_rank_injective(x, y);
    }
}

/// The language detected in a text with an allow list does not depend on the
/// order of the list, nor on repetitions in it.
pub proof fn lemma_detection_ignores_list_order(text: Seq<char>, a: Seq<Language>, b: Seq<Language>)
    requires
        forall|language: Language| a.contains(language) <==> b.contains(language),
    ensures
        detected_language(text, Some(a)) == detected_language(text, Some(b)),
{
    assert forall|profile: u8|
        profiles_of(a).to_set().contains(profile) == profiles_of(b).to_set().contains(profile) by {
        lemma_profiles_of_contains(a, profile);
        lemma_profiles_of_contains(b, profile);
    }
    assert(profiles_of(a).to_set() =~= profiles_of(b).to_set());
    lemma_resolution_ignores_list_order_all(a, b);
}

/// With an allow list of other than one language and no language known,
/// `whatlang` is asked with the profiles of the list's languages that have
/// one; where it detects none there is no language, and otherwise the answer
/// is the language that the detected profile stands for given the list.
pub proof fn lemma_listed_text_is_detected(text: Seq<char>, list: Seq<Language>)
    requires
        list.len() != 1,
    ensures
        language_answer(text, None, Some(list)) == match whatlang_language_among(
            text,
            Set::new(
                |profile: u8|
                    exists|language: Language|
                        list.contains(language) && profile_of(language) == Some(profile),
            ),
        ) {
            None => None,
            Some(detected) => Some(resolved_language(detected, Some(list))),
        },
{
    let allowed = Set::new(
        |profile: u8|
            exists|language: Language|
                list.contains(language) && profile_of(language) == Some(profile),
    );
    assert forall|profile: u8|
        profiles_of(list).to_set().contains(profile) == allowed.contains(profile) by {
        lemma_profiles_of_contains(list, profile);
    }
    assert(profiles_of(list).to_set() =~= allowed);
}

/// The profiles of a list are those of its languages that have one.
proof fn lemma_profiles_of_contains(list: Seq<Language>, profile: u8)
    ensures
        profiles_of(list).contains(profile) == exists|language: Language|
            list.contains(language) && profile_of(language) == Some(profile),
    decreases list.len(),
{
    if profiles_of(list).contains(profile) {
        list.lemma_filter_map_contains(|language: Language| profile_of(language), profile);
    }
    if exists|language: Language| list.contains(language) && profile_of(language) == Some(profile) {
        let language = choose|language: Language|
            list.contains(language) && profile_of(language) == Some(profile);
        let rest = list.drop_last();
        if list.last() == language {
            assert(profiles_of(list) =~= profiles_of(rest) + seq![profile]);
            assert(profiles_of(list)[profiles_of(list).len() - 1] == profile);
        } else {
            let j = choose|j: int| 0 <= j < list.len() && list[j] == language;
            assert(rest[j] == language);
            lemma_profiles_of_contains(rest, profile);
            let k = choose|k: int| 0 <= k < profiles_of(rest).len() && profiles_of(rest)[k] == profile;
            match profile_of(list.last()) {
                Some(p) => {
                    assert(profiles_of(list) =~= profiles_of(rest) + seq![p]);
                    assert(profiles_of(list)[k] == profile);
                },
                None => {
                    assert(profiles_of(list) =~= profiles_of(rest));
                },
            }
        }
    }
}

/// [`lemma_resolution_ignores_list_order`] for every detected profile.
proof fn lemma_resolution_ignores_list_order_all(a: Seq<Language>, b: Seq<Language>)
    requires
        forall|language: Language| a.contains(language) <==> b.contains(language),
    ensures
        forall|detected: u8|
            resolved_language(detected, Some(a)) == resolved_language(detected, Some(b)),
{
    assert forall|detected: u8|
        resolved_language(detected, Some(a)) == resolved_language(detected, Some(b)) by {
        lemma_resolution_ignores_list_order(detected, a, b);
    }
}

/// The language that a detected profile stands for is always recognised by
/// that profile.
pub proof fn lemma_resolution_keeps_profile(detected: u8, allow_list: Option<Seq<Language>>)
    requires
        detected < WHATLANG_LANG_COUNT,
    ensures
        profile_of(resolved_language(detected, allow_list)) == Some(detected),
{
    lemma_profile_of_named_language(detected);
}

/// Where the allow list holds a language recognised by the detected profile,
/// the answer is a language of the list, and the first such language in the
/// order of languages.
pub proof fn lemma_resolution_answers_from_list(detected: u8, list: Seq<Language>)
    requires
        exists|language: Language| list.contains(language) && profile_of(language) == Some(detected),
    ensures
        is_least_with_profile(list, detected, resolved_language(detected, Some(list))),
        list.contains(resolved_language(detected, Some(list))),
{
    lemma_least_exists(list, detected);
}

/// Where `whatlang` detects a profile that a language of the allow list has,
/// the detected language is a language of the list.
pub proof fn lemma_detection_answers_from_list(text: Seq<char>, list: Seq<Language>)
    requires
        detected_profile(text, Some(list)) matches Some(detected) && exists|language: Language|
            list.contains(language) && profile_of(language) == Some(detected),
    ensures
        detected_language(text, Some(list)) matches Some(language) && list.contains(language),
{
    let detected = detected_profile(text, Some(list)).unwrap();
    lemma_resolution_answers_from_list(detected, list);
}

/// A list that holds a language with a profile holds a least one.
proof fn lemma_least_exists(list: Seq<Language>, detected: u8)
    requires
        exists|language: Language| list.contains(language) && profile_of(language) == Some(detected),
    ensures
        exists|language: Language| is_least_with_profile(list, detected, language),
    decreases list.len(),
{
    let rest = list.drop_last();
    let last = list.last();
    assert forall|y: Language| list.contains(y) implies rest.contains(y) || y == last by {
        let j = choose|j: int| 0 <= j < list.len() && list[j] == y;
        if j < list.len() - 1 {
            assert(rest[j] == y);
        }
    }
    assert forall|y: Language| rest.contains(y) implies list.contains(y) by {
        let j = choose|j: int| 0 <= j < rest.len() && rest[j] == y;
        assert(list[j] == y);
    }
    assert(list.contains(last)) by {
        assert(list[list.len() - 1] == last);
    }
    if exists|language: Language| rest.contains(language) && profile_of(language) == Some(detected) {
        lemma_least_exists(rest, detected);
        let m = choose|language: Language| is_least_with_profile(rest, detected, language);
        if profile_of(last) == Some(detected) && language_rank(last) < language_rank(m) {
            assert(is_least_with_profile(list, detected, last));
        } else {
            assert(is_least_with_profile(list, detected, m));
        }
    } else {
        assert(is_least_with_profile(list, detected, last));
    }
}

} // verus!
