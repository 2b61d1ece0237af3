//! Normalization of tokens: the options it runs with, and the steps it is
//! made of.

pub mod classify;
pub mod laws;

use vstd::prelude::*;

use self::classify::{stop_words_well_formed, ClassifierOption};
use crate::token::Token;

verus! {

/// The options that normalization runs with.
#[derive(Debug, Clone, Default)]
pub struct NormalizerOption<'no> {
    /// Whether to record, for each character of the lemma, how many bytes it
    /// took in the original text and in the lemma.
    pub create_char_map: bool,
    /// Whether normalizers that lose information (such as lowercasing) run.
    pub lossy: bool,
    /// What the classification of tokens uses.
    pub classifier: ClassifierOption<'no>,
}

/// One step of the normalization of a token.
pub trait Normalizer {
    /// The token after this step; the stop words of the options, if any, are
    /// a well-formed set.
    fn normalize(&self, token: Token, options: &NormalizerOption) -> Token
        requires
            stop_words_well_formed(options.classifier),
    ;

    /// Whether this step applies to the token.
    fn should_normalize(&self, token: &Token) -> bool;
}

} // verus!
