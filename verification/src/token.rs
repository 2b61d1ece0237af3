//! Tokens and their kinds.

use vstd::prelude::*;

use crate::detection::script_language::{Language, Script};

verus! {

/// How strongly a separator separates.
#[derive(Debug, Clone, Copy, PartialEq, Eq, Structural)]
pub enum SeparatorKind {
    /// Ends a sentence, a paragraph or a line.
    Hard,
    /// Separates words only.
    Soft,
}

/// What a token is.
#[derive(Debug, Clone, Copy, PartialEq, Eq, Structural)]
pub enum TokenKind {
    Word,
    StopWord,
    Separator(SeparatorKind),
    Unknown,
}

impl Default for TokenKind {
    /// A token not classified yet.
    fn default() -> (r: Self)
        ensures
            r == TokenKind::Unknown,
    {
        TokenKind::Unknown
    }
}

/// A piece of text with its normalized form (its lemma) and what is known of it.
#[derive(Debug, Clone)]
pub struct Token {
    pub kind: TokenKind,
    pub lemma: String,
    pub char_start: usize,
    pub char_end: usize,
    pub byte_start: usize,
    pub byte_end: usize,
    pub char_map: Option<Vec<(u8, u8)>>,
    pub script: Script,
    pub language: Option<Language>,
}

impl Default for Token {
    /// An empty token, not classified yet.
    fn default() -> (r: Self)
        ensures
            r.kind == TokenKind::Unknown,
            r.lemma@ == Seq::<char>::empty(),
            r.char_start == 0,
            r.char_end == 0,
            r.byte_start == 0,
            r.byte_end == 0,
            r.char_map is None,
            r.script == Script::Other,
            r.language is None,
    {
        Token {
            kind: TokenKind::Unknown,
            lemma: String::new(),
            char_start: 0,
            char_end: 0,
            byte_start: 0,
            byte_end: 0,
            char_map: None,
            script: Script::Other,
            language: None,
        }
    }
}

impl Token {
    /// The normalized form of the token.
    pub fn lemma(&self) -> (r: &str)
        ensures
            r@ == self.lemma@,
    {
        self.lemma.as_str()
    }

    /// Whether the token is a word.
    pub fn is_word(&self) -> (r: bool)
        ensures
            r == (self.kind == TokenKind::Word),
    {
        matches!(self.kind, TokenKind::Word)
    }

    /// Whether the token is a stop word.
    pub fn is_stopword(&self) -> (r: bool)
        ensures
            r == (self.kind == TokenKind::StopWord),
    {
        matches!(self.kind, TokenKind::StopWord)
    }

    /// Whether the token is a separator, of either kind.
    pub fn is_separator(&self) -> (r: bool)
        ensures
            r == (self.kind is Separator),
    {
        matches!(self.kind, TokenKind::Separator(_))
    }

    /// The kind of separator that the token is, if it is one.
    pub fn separator_kind(&self) -> (r: Option<SeparatorKind>)
        ensures
            r == match self.kind {
                TokenKind::Separator(kind) => Some(kind),
                _ => None,
            },
    {
        match self.kind {
            TokenKind::Separator(kind) => Some(kind),
            _ => None,
        }
    }
}

} // verus!
