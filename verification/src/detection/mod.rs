//! Detection of the script and the language of a piece of text.
//!
//! The detection itself is `whatlang`'s; what is decided here is when to ask
//! it, and how its answer, a language profile, is turned into a [`Language`]
//! of the caller's allow list.

pub mod correspondence;
pub mod laws;
pub mod script_language;

use vstd::prelude::*;

use self::script_language::{
    language_of_profile, language_rank, lemma_rank_injective, profile_of, script_of_profile,
    Language, Script, WHATLANG_LANG_COUNT, WHATLANG_SCRIPT_COUNT,
};

verus! {

/// The script profile that `whatlang::detect_script` finds in a text, as the
/// number of its variant in `whatlang::Script`; `None` where no character of
/// the text belongs to a known writing system.
pub uninterp spec fn whatlang_script(text: Seq<char>) -> Option<u8>;

/// The language profile that a `whatlang::Detector` made by
/// `Detector::default()` (every language allowed) finds in a text, as the number
/// of its variant in `whatlang::Lang`.
pub uninterp spec fn whatlang_language(text: Seq<char>) -> Option<u8>;

/// The language profile that a `whatlang::Detector` made by
/// `Detector::with_allowlist` from the profiles in `allowed` finds in a text,
/// as the number of its variant in `whatlang::Lang`.
///
/// `whatlang` consults its allow list only through `FilterList::is_allowed`,
/// a membership test, so the answer depends on which profiles are allowed and
/// not on their order or repetition.
pub uninterp spec fn whatlang_language_among(text: Seq<char>, allowed: Set<u8>) -> Option<u8>;

/// Calls `whatlang::detect_script` on `text`.
///
/// Claimed: the result is the named result `whatlang_script` of the text,
/// converted to the number of the `whatlang::Script` variant (`as u8`), which
/// is below the number of variants of that enum.
#[verifier::external_body]
fn whatlang_detect_script(text: &str) -> (r: Option<u8>)
    ensures
        r == whatlang_script(text@),
        r matches Some(code) ==> code < WHATLANG_SCRIPT_COUNT,
{
    match whatlang::detect_script(text) {
        Some(script) => Some(script as u8),
        None => None,
    }
}

/// Calls `whatlang::Detector::detect_lang` on a detector made by
/// `whatlang::Detector::default()`, which allows every language.
///
/// Claimed: the result is the named result `whatlang_language` of the text,
/// converted to the number of the `whatlang::Lang` variant (`as u8`), which
/// is below the number of variants of that enum.
#[verifier::external_body]
fn whatlang_detect_lang(text: &str) -> (r: Option<u8>)
    ensures
        r == whatlang_language(text@),
        r matches Some(code) ==> code < WHATLANG_LANG_COUNT,
{
    match whatlang::Detector::default().detect_lang(text) {
        Some(lang) => Some(lang as u8),
        None => None,
    }
}

/// Calls `whatlang::Detector::detect_lang` on a detector made by
/// `whatlang::Detector::with_allowlist` from the profiles numbered
/// `allow_list` (each number is turned back into its `whatlang::Lang` through
/// `Lang::all()`, whose order is that of the variants).
///
/// Claimed: the result is the named result `whatlang_language_among` of the
/// text and the set of profiles in the list (whatlang only tests membership
/// in its allow list), converted to the number of the `whatlang::Lang` variant,
/// which is below the number of variants of that enum. Not claimed: that the
/// result is in the list; `whatlang` answers from the script alone for the
/// scripts of a single language (and answers Japanese for Han text when
/// Mandarin is not allowed), whatever the list holds.
#[verifier::external_body]
fn whatlang_detect_lang_among(text: &str, allow_list: &Vec<u8>) -> (r: Option<u8>)
    requires
        forall|i: int| 0 <= i < allow_list@.len() ==> allow_list@[i] < WHATLANG_LANG_COUNT,
    ensures
        r == whatlang_language_among(text@, allow_list@.to_set()),
        r matches Some(code) ==> code < WHATLANG_LANG_COUNT,
{
    let langs = allow_list.iter().map(|code| whatlang::Lang::all()[*code as usize]).collect();
    match whatlang::Detector::with_allowlist(langs).detect_lang(text) {
        Some(lang) => Some(lang as u8),
        None => None,
    }
}

/// The script of a text: the script that `whatlang` detects, or `Other` where
/// it detects none.
pub open spec fn detected_script(text: Seq<char>) -> Script {
    match whatlang_script(text) {
        Some(code) => script_of_profile(code),
        None => Script::Other,
    }
}

/// The `whatlang` profiles of the languages of a list that have one, in the
/// list's order.
pub open spec fn profiles_of(list: Seq<Language>) -> Seq<u8> {
    list.filter_map(|language: Language| profile_of(language))
}

/// `language` is in `list`, has the profile `detected`, and no language of
/// `list` with that profile comes before it.
pub open spec fn is_least_with_profile(list: Seq<Language>, detected: u8, language: Language) -> bool {
    &&& list.contains(language)
    &&& profile_of(language) == Some(detected)
    &&& forall|other: Language|
        list.contains(other) && profile_of(other) == Some(detected) ==> language_rank(language)
            <= language_rank(other)
}

/// The language that a detected profile stands for, given the allow list.
///
/// With an allow list that holds a language recognised by that profile, the
/// first such language in the order of languages; otherwise the language that
/// the profile names.
pub open spec fn resolved_language(detected: u8, allow_list: Option<Seq<Language>>) -> Language {
    match allow_list {
        Some(list) => if exists|language: Language| is_least_with_profile(list, detected, language) {
            choose|language: Language| is_least_with_profile(list, detected, language)
        } else {
            language_of_profile(detected)
        },
        None => language_of_profile(detected),
    }
}

/// The profile that `whatlang` detects in a text, asked with the profiles of
/// the allow list where there is one.
pub open spec fn detected_profile(text: Seq<char>, allow_list: Option<Seq<Language>>) -> Option<u8> {
    match allow_list {
        Some(list) => whatlang_language_among(text, profiles_of(list).to_set()),
        None => whatlang_language(text),
    }
}

/// The language detected in a text: `None` where `whatlang` detects none,
/// otherwise the language that the detected profile stands for.
pub open spec fn detected_language(text: Seq<char>, allow_list: Option<Seq<Language>>) -> Option<
    Language,
> {
    match detected_profile(text, allow_list) {
        Some(detected) => Some(resolved_language(detected, allow_list)),
        None => None,
    }
}

/// The answer of [`StrDetection::language`] for a text, what it already knew
/// of the language, and the allow list.
///
/// A language already known is kept. Otherwise an allow list of exactly one
/// language gives that language; Latin text without an allow list gives no
/// language; any other text is detected.
pub open spec fn language_answer(
    text: Seq<char>,
    known: Option<Language>,
    allow_list: Option<Seq<Language>>,
) -> Option<Language> {
    match known {
        Some(language) => Some(language),
        None => match allow_list {
            Some(list) => if list.len() == 1 {
                Some(list[0])
            } else {
                detected_language(text, allow_list)
            },
            None => if detected_script(text) == Script::Latin {
                None
            } else {
                detected_language(text, allow_list)
            },
        },
    }
}

/// The view of an optional allow list.
pub open spec fn allow_list_view(allow_list: Option<&[Language]>) -> Option<Seq<Language>> {
    match allow_list {
        Some(list) => Some(list@),
        None => None,
    }
}

/// Two languages that are both least with a profile in a list are the same.
proof fn lemma_least_with_profile_unique(list: Seq<Language>, detected: u8, a: Language, b: Language)
    requires
        is_least_with_profile(list, detected, a),
        is_least_with_profile(list, detected, b),
    ensures
        a == b,
{
    lemma_rank_injective(a, b);
}

/// The language that a detected `whatlang` profile stands for, given the
/// allow list that the detector was asked with.
///
/// With an allow list holding languages recognised by `detected`, the first of
/// them in the order of languages, so that the answer does not depend on the
/// order of the list; otherwise the language that `detected` names.
pub fn resolve_language(detected: u8, allow_list: Option<&[Language]>) -> (r: Language)
    requires
        detected < WHATLANG_LANG_COUNT,
    ensures
        r == resolved_language(detected, allow_list_view(allow_list)),
{
    match allow_list {
        None => Language::from_whatlang(detected),
        Some(list) => {
            let mut best: Option<Language> = None;
            for i in 0..list.len()
                invariant
                    best matches None ==> forall|j: int|
                        0 <= j < i ==> profile_of(#[trigger] list@[j]) != Some(detected),
                    best matches Some(b) ==> {
                        &&& list@.contains(b)
                        &&& profile_of(b) == Some(detected)
                        &&& forall|j: int|
                            0 <= j < i && profile_of(#[trigger] list@[j]) == Some(detected)
                                ==> language_rank(b) <= language_rank(list@[j])
                    },
            {
                let language = list[i];
                let matches_profile = match language.whatlang() {
                    Some(profile) => profile == detected,
                    None => false,
                };
                if matches_profile {
                    match best {
                        None => {
                            best = Some(language);
                        },
                        Some(b) => {
                            if language.rank() < b.rank() {
                                best = Some(language);
                            }
                        },
                    }
                }
            }
            match best {
                Some(b) => {
                    proof {
                        assert forall|other: Language|
                            list@.contains(other) && profile_of(other) == Some(detected) implies language_rank(b)
                            <= language_rank(other) by {
                            let j = choose|j: int| 0 <= j < list@.len() && list@[j] == other;
                            assert(profile_of(list@[j]) == Some(detected));
                        }
                        assert(is_least_with_profile(list@, detected, b));
                        let c = choose|language: Language| is_least_with_profile(list@, detected, language);
                        lemma_least_with_profile_unique(list@, detected, b, c);
                    }
                    b
                },
                None => {
                    proof {
                        assert forall|language: Language|
                            !is_least_with_profile(list@, detected, language) by {
                            if list@.contains(language) {
                                let j = choose|j: int| 0 <= j < list@.len() && list@[j] == language;
                                assert(profile_of(list@[j]) != Some(detected));
                            }
                        }
                    }
                    Language::from_whatlang(detected)
                },
            }
        },
    }
}

/// The state of the detection of one text: the text, the allow list, and what
/// has been found so far of its script and its language.
pub struct StrDetection<'o, 'al> {
    inner: &'o str,
    pub script: Option<Script>,
    pub language: Option<Language>,
    allow_list: Option<&'al [Language]>,
}

impl<'o, 'al> StrDetection<'o, 'al> {
    /// The text under detection.
    pub closed spec fn text(&self) -> Seq<char> {
        self.inner@
    }

    /// The script found so far.
    pub closed spec fn known_script(&self) -> Option<Script> {
        self.script
    }

    /// The language found so far.
    pub closed spec fn known_language(&self) -> Option<Language> {
        self.language
    }

    /// The allow list that detection chooses from, if any.
    pub closed spec fn allowed(&self) -> Option<Seq<Language>> {
        allow_list_view(self.allow_list)
    }

    /// A detection of `inner` that has found nothing yet.
    pub fn new(inner: &'o str, allow_list: Option<&'al [Language]>) -> (r: Self)
        ensures
            r.text() == inner@,
            r.allowed() == allow_list_view(allow_list),
            r.known_script() is None,
            r.known_language() is None,
    {
        Self { inner, script: None, language: None, allow_list }
    }

    /// The script of the text, detected on the first call and kept for the
    /// following ones.
    pub fn script(&mut self) -> (r: Script)
        ensures
            script_post(*old(self), *final(self), r),
    {
        match self.script {
            Some(script) => script,
            None => {
                let script = Self::detect_script(self.inner);
                self.script = Some(script);
                script
            },
        }
    }

    /// The language of the text, found as [`language_answer`] says and kept
    /// for the following calls.
    pub fn language(&mut self) -> (r: Option<Language>)
        ensures
            language_post(*old(self), *final(self), r),
    {
        let inner = self.inner;
        let answer = match self.language {
            Some(language) => Some(language),
            None => match self.allow_list {
                Some(list) => {
                    if list.len() == 1 {
                        Some(list[0])
                    } else {
                        Self::detect_lang(inner, self.allow_list)
                    }
                },
                None => {
                    if Self::detect_script(inner) == Script::Latin {
                        None
                    } else {
                        Self::detect_lang(inner, None)
                    }
                },
            },
        };
        self.language = answer;
        answer
    }

    /// The script that `whatlang` detects in `text`, or `Other` where it
    /// detects none.
    fn detect_script(text: &str) -> (r: Script)
        ensures
            r == detected_script(text@),
    {
        match whatlang_detect_script(text) {
            Some(code) => Script::from_whatlang(code),
            None => Script::Other,
        }
    }

    /// The language that `whatlang` detects in `text`, asked with the
    /// profiles of the allow list where there is one, and turned into a
    /// language of the list where one has the detected profile.
    fn detect_lang(text: &str, allow_list: Option<&[Language]>) -> (r: Option<Language>)
        ensures
            r == detected_language(text@, allow_list_view(allow_list)),
    {
        let detected = match allow_list {
            Some(list) => {
                let profiles = whatlang_profiles(list);
                whatlang_detect_lang_among(text, &profiles)
            },
            None => whatlang_detect_lang(text),
        };
        match detected {
            Some(profile) => Some(resolve_language(profile, allow_list)),
            None => None,
        }
    }
}

/// The `whatlang` profiles of the languages of `list`, in the list's order.
fn whatlang_profiles(list: &[Language]) -> (r: Vec<u8>)
    ensures
        r@ == profiles_of(list@),
        forall|i: int| 0 <= i < r@.len() ==> r@[i] < WHATLANG_LANG_COUNT,
{
    let mut profiles: Vec<u8> = Vec::new();
    for i in 0..list.len()
        invariant
            profiles@ == profiles_of(list@.take(i as int)),
            forall|j: int| 0 <= j < profiles@.len() ==> profiles@[j] < WHATLANG_LANG_COUNT,
    {
        proof {
            list@.lemma_filter_map_take_succ(|language: Language| profile_of(language), i as int);
        }
        if let Some(profile) = list[i].whatlang() {
            profiles.push(profile);
        }
        assert(profiles@ =~= profiles_of(list@.take(i + 1)));
    }
    assert(list@.take(list@.len() as int) =~= list@);
    profiles
}

/// What a call of [`StrDetection::script`] does: it answers the script
/// already known, or else the detected script of the text, records it, and
/// changes nothing else.
pub open spec fn script_post(before: StrDetection, after: StrDetection, r: Script) -> bool {
    &&& r == match before.known_script() {
        Some(script) => script,
        None => detected_script(before.text()),
    }
    &&& after.known_script() == Some(r)
    &&& after.known_language() == before.known_language()
    &&& after.text() == before.text()
    &&& after.allowed() == before.allowed()
}

/// What a call of [`StrDetection::language`] does: it answers
/// [`language_answer`], records the answer, and changes nothing else.
pub open spec fn language_post(before: StrDetection, after: StrDetection, r: Option<Language>) -> bool {
    &&& r == language_answer(before.text(), before.known_language(), before.allowed())
    &&& after.known_language() == r
    &&& after.known_script() == before.known_script()
    &&& after.text() == before.text()
    &&& after.allowed() == before.allowed()
}

/// Detection of a text, with an optional allow list of languages.
pub trait Detect<'o, 'al> {
    fn detect(&'o self, allow_list: Option<&'al [Language]>) -> StrDetection<'o, 'al>;
}

impl<'o, 'al> Detect<'o, 'al> for &str {
    /// A detection of this text that has found nothing yet.
    fn detect(&'o self, allow_list: Option<&'al [Language]>) -> (r: StrDetection<'o, 'al>)
        ensures
            r.text() == (**self)@,
            r.allowed() == allow_list_view(allow_list),
            r.known_script() is None,
            r.known_language() is None,
    {
        StrDetection::new(self, allow_list)
    }
}

} // verus!
