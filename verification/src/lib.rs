//! Language and script detection, and the classification of tokens into
//! words, stop words and separators.

pub mod detection;
pub mod normalizer;
pub mod separators;
pub mod strings;
pub mod token;

pub use detection::script_language::{Language, Script};
pub use detection::{resolve_language, Detect, StrDetection};
pub use normalizer::classify::{
    build_stop_words, classify_lemma, normalize_for_stop_list, separator_kind, Classifier,
    ClassifierOption,
};
pub use normalizer::{Normalizer, NormalizerOption};
pub use token::{SeparatorKind, Token, TokenKind};
