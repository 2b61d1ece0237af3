//! Classification of tokens into words, stop words and separators.

use unicode_normalization::UnicodeNormalization;
use vstd::prelude::*;
use vstd::string::StringSliceAdditionalSpecFns;
use vstd::utf8::encode_utf8;

use super::{NormalizerOption, Normalizer};
use crate::separators::{
    context_separator_list, context_separators, default_separator_list, default_separators,
};
use crate::strings::{contains_str, is_sorted_by_bytes, sorted_by_bytes, views_of};
use crate::token::{SeparatorKind, Token, TokenKind};

verus! {

#[verifier::external_type_specification]
#[verifier::external_body]
#[verifier::reject_recursive_types(D)]
pub struct ExFstSet<D>(fst::Set<D>);

/// The keys of an `fst::Set`, each a string of bytes.
pub uninterp spec fn fst_set_keys(set: fst::Set<&[u8]>) -> Set<Seq<u8>>;

/// Whether the bytes under an `fst::Set` are a well-formed FST, such as the
/// `fst` builder writes. `fst` reads a set lazily, and reading one that is
/// not well formed can panic.
pub uninterp spec fn fst_set_well_formed(set: fst::Set<&[u8]>) -> bool;

/// Calls `fst::Set::contains` with the UTF-8 bytes of `word`.
///
/// Claimed: on a well-formed set, the call returns whether those bytes are
/// one of the keys of the set. A set that is not well formed is not admitted.
#[verifier::external_body]
fn fst_set_contains(set: &fst::Set<&[u8]>, word: &str) -> (r: bool)
    requires
        fst_set_well_formed(*set),
    ensures
        r == fst_set_keys(*set).contains(word.spec_bytes()),
{
    set.contains(word)
}

/// Builds an `fst::Set` of the UTF-8 bytes of `words` with
/// `fst::Set::from_iter`, keeps its bytes in `buffer`
/// (`Set::into_fst`, `Fst::into_inner`), and reads them back as a set with
/// `fst::Set::new`.
///
/// Claimed: for words in byte order (repetitions allowed, which the set
/// builder accepts), the builder succeeds, its bytes are a well-formed FST
/// that `Set::new` accepts, and the keys of the set are the bytes of the
/// words.
#[verifier::external_body]
fn fst_set_build<'a>(words: &[&str], buffer: &'a mut Vec<u8>) -> (r: fst::Set<&'a [u8]>)
    requires
        sorted_by_bytes(words@),
    ensures
        fst_set_well_formed(r),
        fst_set_keys(r) == words@.map_values(|word: &str| word.spec_bytes()).to_set(),
{
    *buffer = fst::Set::from_iter(words.iter()).unwrap().into_fst().into_inner();
    let bytes: &'a Vec<u8> = buffer;
    fst::Set::new(bytes.as_slice()).unwrap()
}

/// The compatibility decomposition (Unicode normalization form KD) of a
/// text, as `unicode_normalization` computes it.
pub uninterp spec fn nfkd_form(text: Seq<char>) -> Seq<char>;

/// Calls `UnicodeNormalization::nfkd` on `text` and collects the characters.
///
/// Claimed: the result is the named result `nfkd_form` of the text.
#[verifier::external_body]
fn compatibility_decomposition(text: &str) -> (r: String)
    ensures
        r@ == nfkd_form(text@),
{
    text.nfkd().collect()
}

/// The form in which a stop list is stored and looked up: the text through
/// the non-lossy normalizers, which decompose characters into their
/// compatibility decomposition and leave the case as it is.
pub open spec fn stop_list_form(text: Seq<char>) -> Seq<char> {
    nfkd_form(text)
}

/// `text` in the form in which stop lists are stored: see [`stop_list_form`].
pub fn normalize_for_stop_list(text: &str) -> (r: String)
    ensures
        r@ == stop_list_form(text@),
{
    compatibility_decomposition(text)
}

/// A stop-word set of `words`, kept in `buffer`, for the words in byte
/// order; `None` where they are not (the FST builder refuses them).
pub fn build_stop_words<'a>(words: &[&str], buffer: &'a mut Vec<u8>) -> (r: Option<
    fst::Set<&'a [u8]>,
>)
    ensures
        r is Some == sorted_by_bytes(words@),
        r matches Some(set) ==> {
            &&& fst_set_well_formed(set)
            &&& fst_set_keys(set) == words@.map_values(|word: &str| word.spec_bytes()).to_set()
        },
{
    if is_sorted_by_bytes(words) {
        Some(fst_set_build(words, buffer))
    } else {
        None
    }
}

/// Classifies a token as a word, a stop word or a separator.
///
/// A token whose lemma is in the stop words is a stop word; otherwise one
/// whose lemma is a separator is a separator; any other is a word.
pub struct Classifier;

/// What the classification of tokens uses.
#[derive(Debug, Clone, Default)]
pub struct ClassifierOption<'no> {
    /// The stop words, as an FST set of their UTF-8 bytes.
    pub stop_words: Option<fst::Set<&'no [u8]>>,
    /// The separators; the default separators where there are none.
    pub separators: Option<&'no [&'no str]>,
}

/// Whether the stop words of `options`, if any, are a well-formed set.
pub open spec fn stop_words_well_formed(options: ClassifierOption) -> bool {
    options.stop_words matches Some(set) ==> fst_set_well_formed(set)
}

/// Whether the stop words of `options` hold `word`.
pub open spec fn is_stop_word(options: ClassifierOption, word: Seq<char>) -> bool {
    match options.stop_words {
        Some(set) => fst_set_keys(set).contains(encode_utf8(word)),
        None => false,
    }
}

/// Whether `lemma` is a separator under `options`: one of its separators, or
/// of the default separators where it has none.
pub open spec fn is_separator(options: ClassifierOption, lemma: Seq<char>) -> bool {
    match options.separators {
        Some(separators) => views_of(separators@).contains(lemma),
        None => default_separators().contains(lemma),
    }
}

/// The kind of a separator: hard for those that end a sentence, a paragraph
/// or a line, soft for the others.
pub open spec fn separator_kind_of(lemma: Seq<char>) -> SeparatorKind {
    if context_separators().contains(lemma) {
        SeparatorKind::Hard
    } else {
        SeparatorKind::Soft
    }
}

/// The kind that classification gives a token with the lemma `lemma`.
pub open spec fn classified_kind(options: ClassifierOption, lemma: Seq<char>) -> TokenKind {
    if is_stop_word(options, lemma) {
        TokenKind::StopWord
    } else if is_separator(options, lemma) {
        TokenKind::Separator(separator_kind_of(lemma))
    } else {
        TokenKind::Word
    }
}

/// A token after [`classify_lemma`]: a stop word where the stop words hold
/// `stop_form`, the lemma in stop-list form; unchanged otherwise.
pub open spec fn lemma_classified(token: Token, options: ClassifierOption, stop_form: Seq<char>) -> Token {
    if is_stop_word(options, stop_form) {
        Token { kind: TokenKind::StopWord, ..token }
    } else {
        token
    }
}

impl Normalizer for Classifier {
    /// The token with the kind that its lemma gives it; nothing else changes.
    fn normalize(&self, token: Token, options: &NormalizerOption) -> (r: Token)
        ensures
            r == (Token { kind: classified_kind(options.classifier, token.lemma@), ..token }),
    {
        let mut token = token;
        token.kind = TokenKind::Word;
        let stop = match &options.classifier.stop_words {
            Some(stop_words) => fst_set_contains(stop_words, token.lemma()),
            None => false,
        };
        if stop {
            token.kind = TokenKind::StopWord;
            return token;
        }
        let separator = match options.classifier.separators {
            Some(separators) => contains_str(separators, token.lemma()),
            None => {
                let defaults = default_separator_list();
                contains_str(defaults.as_slice(), token.lemma())
            },
        };
        if separator {
            token.kind = TokenKind::Separator(separator_kind(token.lemma()));
        }
        token
    }

    /// Only tokens not classified yet are classified.
    fn should_normalize(&self, token: &Token) -> (r: bool)
        ensures
            r == (token.kind == TokenKind::Unknown),
    {
        token.kind == TokenKind::Unknown
    }
}

/// Marks a token as a stop word when its lemma is one.
///
/// The classifier runs before lemmatization and sees only the word form; stop
/// words written as lemmas are found here, after it. The lemma is put through
/// the same non-lossy normalizers as the stop words were before they were
/// stored, so that both sides are compared in the same composition form; the
/// case is left as the dictionary gave it.
pub fn classify_lemma(token: Token, options: &NormalizerOption) -> (r: Token)
    requires
        stop_words_well_formed(options.classifier),
    ensures
        r == lemma_classified(token, options.classifier, stop_list_form(token.lemma@)),
{
    let stop = match &options.classifier.stop_words {
        Some(stop_words) => {
            let lemma = normalize_for_stop_list(token.lemma());
            fst_set_contains(stop_words, lemma.as_str())
        },
        None => false,
    };
    let mut token = token;
    if stop {
        token.kind = TokenKind::StopWord;
    }
    token
}

/// The kind of the separator `lemma`: hard for the separators that end a
/// sentence, a paragraph or a line, soft for the others.
pub fn separator_kind(lemma: &str) -> (r: SeparatorKind)
    ensures
        r == separator_kind_of(lemma@),
{
    let context = context_separator_list();
    if contains_str(context.as_slice(), lemma) {
        SeparatorKind::Hard
    } else {
        SeparatorKind::Soft
    }
}

} // verus!
