//! Properties of the classification of tokens.

use vstd::prelude::*;

use vstd::utf8::encode_utf8;

use super::classify::{
    classified_kind, fst_set_keys, is_separator, is_stop_word, lemma_classified, nfkd_form,
    separator_kind_of, stop_list_form, ClassifierOption,
};
use crate::separators::{context_separators, default_separators};
use crate::token::{SeparatorKind, Token, TokenKind};

verus! {

/// A token is classified as a stop word exactly when the stop words hold its
/// lemma.
pub proof fn lemma_stop_word_iff_listed(options: ClassifierOption, lemma: Seq<char>)
    ensures
        (classified_kind(options, lemma) == TokenKind::StopWord) == is_stop_word(options, lemma),
{
}

/// A token that is not a stop word is classified as a separator exactly when
/// its lemma is a separator.
pub proof fn lemma_separator_iff_listed(options: ClassifierOption, lemma: Seq<char>)
    requires
        !is_stop_word(options, lemma),
    ensures
        (classified_kind(options, lemma) is Separator) == is_separator(options, lemma),
{
}

/// A lemma that is both a stop word and a separator makes a stop word, not a
/// separator.
pub proof fn lemma_stop_word_before_separator(options: ClassifierOption, lemma: Seq<char>)
    requires
        is_stop_word(options, lemma),
        is_separator(options, lemma),
    ensures
        classified_kind(options, lemma) == TokenKind::StopWord,
        !(classified_kind(options, lemma) is Separator),
{
}

/// A separator is hard exactly when it ends a sentence, a paragraph or a line.
pub proof fn lemma_hard_separators(options: ClassifierOption, lemma: Seq<char>)
    requires
        classified_kind(options, lemma) is Separator,
    ensures
        (classified_kind(options, lemma) == TokenKind::Separator(SeparatorKind::Hard))
            == context_separators().contains(lemma),
{
}

/// Classifying a classified token again changes nothing: the kind depends on
/// the lemma alone, and the lemma is left as it was.
pub proof fn lemma_classification_is_idempotent(options: ClassifierOption, token: Token)
    ensures
        ({
            let once = Token { kind: classified_kind(options, token.lemma@), ..token };
            Token { kind: classified_kind(options, once.lemma@), ..once } == once
        }),
{
}

/// Marking stop words by their lemma only ever makes a token a stop word: the
/// token keeps its kind or becomes a stop word, and nothing else changes; a
/// stop word stays one.
pub proof fn lemma_lemma_classification_only_adds_stop_words(
    token: Token,
    options: ClassifierOption,
    stop_form: Seq<char>,
)
    ensures
        ({
            let r = lemma_classified(token, options, stop_form);
            &&& r.kind == token.kind || r.kind == TokenKind::StopWord
            &&& token.kind == TokenKind::StopWord ==> r.kind == TokenKind::StopWord
            &&& r == (Token { kind: r.kind, ..token })
            &&& options.stop_words is None ==> r == token
        }),
{
}

/// Two tokens of the same kind whose lemmas have the same stop-list form
/// (such as a lemma in composed and in decomposed form) get the same kind from
/// the classification of their lemmas.
pub proof fn lemma_lemma_kind_ignores_composition_form(
    a: Token,
    b: Token,
    options: ClassifierOption,
)
    requires
        a.kind == b.kind,
        stop_list_form(a.lemma@) == stop_list_form(b.lemma@),
    ensures
        lemma_classified(a, options, stop_list_form(a.lemma@)).kind == lemma_classified(
            b,
            options,
            stop_list_form(b.lemma@),
        ).kind,
{
}

/// The classification of a lemma looks it up as it is: the token becomes a
/// stop word exactly when the stop set holds the UTF-8 bytes of the lemma;
/// otherwise, with no stop word, a separator exactly when the given
/// separators (or, with none given, the default ones) hold a string with the
/// characters of the lemma.
pub proof fn lemma_classification_lookups(options: ClassifierOption, lemma: Seq<char>)
    ensures
        (classified_kind(options, lemma) == TokenKind::StopWord) == (match options.stop_words {
            Some(set) => fst_set_keys(set).contains(encode_utf8(lemma)),
            None => false,
        }),
        options.stop_words is None ==> match options.separators {
            Some(separators) => (classified_kind(options, lemma) is Separator) == exists|i: int|
                0 <= i < separators@.len() && (#[trigger] separators@[i])@ == lemma,
            None => (classified_kind(options, lemma) is Separator) == default_separators().contains(
                lemma,
            ),
        },
{
    if options.stop_words is None {
        if let Some(separators) = options.separators {
            if crate::strings::views_of(separators@).contains(lemma) {
                let i = choose|i: int|
                    0 <= i < crate::strings::views_of(separators@).len()
                        && crate::strings::views_of(separators@)[i] == lemma;
                assert(separators@[i]@ == lemma);
            }
            if exists|i: int| 0 <= i < separators@.len() && (#[trigger] separators@[i])@ == lemma {
                let i = choose|i: int| 0 <= i < separators@.len() && (#[trigger] separators@[i])@ == lemma;
                assert(crate::strings::views_of(separators@)[i] == lemma);
            }
        }
    }
}

/// The classification of a token's lemma looks up its compatibility
/// decomposition: the token becomes a stop word, with nothing else changed,
/// exactly when the stop set holds the UTF-8 bytes of the decomposed lemma,
/// whatever the length of the lemma; otherwise it is left as it was.
pub proof fn lemma_lemma_lookup_of_the_decomposed_lemma(token: Token, options: ClassifierOption)
    ensures
        ({
            let r = lemma_classified(token, options, stop_list_form(token.lemma@));
            match options.stop_words {
                Some(set) => if fst_set_keys(set).contains(encode_utf8(nfkd_form(token.lemma@))) {
                    r == Token { kind: TokenKind::StopWord, ..token }
                } else {
                    r == token
                },
                None => r == token,
            }
        }),
{
}

/// Whether `c` is an ASCII punctuation mark: `!` to `/`, `:` to `@`, `[` to
/// `` ` `` and `{` to `~`.
pub open spec fn is_ascii_punctuation(c: char) -> bool {
    let v = c as u32;
    (0x21 <= v <= 0x2f) || (0x3a <= v <= 0x40) || (0x5b <= v <= 0x60) || (0x7b <= v <= 0x7e)
}

/// Whether `c` is an ASCII space or line break: tab, line feed, vertical tab,
/// form feed, carriage return or space.
pub open spec fn is_ascii_space(c: char) -> bool {
    let v = c as u32;
    (0x09 <= v <= 0x0d) || v == 0x20
}

/// Every ASCII punctuation mark, space and line break, as a string of one
/// character, is a default separator.
pub proof fn lemma_default_separators_hold_ascii_punctuation_and_spaces(c: char)
    requires
        is_ascii_punctuation(c) || is_ascii_space(c),
    ensures
        default_separators().contains(seq![c]),
{
    let list = default_separators();
    if c == '\u{0009}' {
        reveal_strlit("\u{0009}");
        assert(list[0] =~= seq![c]);
    } else if c == '\u{000A}' {
        reveal_strlit("\u{000A}");
        assert(list[1] =~= seq![c]);
    } else if c == '\u{000B}' {
        reveal_strlit("\u{000B}");
        assert(list[2] =~= seq![c]);
    } else if c == '\u{000C}' {
        reveal_strlit("\u{000C}");
        assert(list[3] =~= seq![c]);
    } else if c == '\u{000D}' {
        reveal_strlit("\u{000D}");
        assert(list[4] =~= seq![c]);
    } else if c == ' ' {
        reveal_strlit(" ");
        assert(list[5] =~= seq![c]);
    } else if c == '!' {
        reveal_strlit("!");
        assert(list[25] =~= seq![c]);
    } else if c == '"' {
        reveal_strlit("\"");
        assert(list[26] =~= seq![c]);
    } else if c == '#' {
        reveal_strlit("#");
        assert(list[27] =~= seq![c]);
    } else if c == '$' {
        reveal_strlit("$");
        assert(list[28] =~= seq![c]);
    } else if c == '%' {
        reveal_strlit("%");
        assert(list[29] =~= seq![c]);
    } else if c == '&' {
        reveal_strlit("&");
        assert(list[30] =~= seq![c]);
    } else if c == '\'' {
        reveal_strlit("'");
        assert(list[31] =~= seq![c]);
    } else if c == '(' {
        reveal_strlit("(");
        assert(list[32] =~= seq![c]);
    } else if c == ')' {
        reveal_strlit(")");
        assert(list[33] =~= seq![c]);
    } else if c == '*' {
        reveal_strlit("*");
        assert(list[34] =~= seq![c]);
    } else if c == '+' {
        reveal_strlit("+");
        assert(list[35] =~= seq![c]);
    } else if c == ',' {
        reveal_strlit(",");
        assert(list[36] =~= seq![c]);
    } else if c == '-' {
        reveal_strlit("-");
        assert(list[37] =~= seq![c]);
    } else if c == '.' {
        reveal_strlit(".");
        assert(list[38] =~= seq![c]);
    } else if c == '/' {
        reveal_strlit("/");
        assert(list[39] =~= seq![c]);
    } else if c == ':' {
        reveal_strlit(":");
        assert(list[40] =~= seq![c]);
    } else if c == ';' {
        reveal_strlit(";");
        assert(list[41] =~= seq![c]);
    } else if c == '<' {
        reveal_strlit("<");
        assert(list[42] =~= seq![c]);
    } else if c == '=' {
        reveal_strlit("=");
        assert(list[43] =~= seq![c]);
    } else if c == '>' {
        reveal_strlit(">");
        assert(list[44] =~= seq![c]);
    } else if c == '?' {
        reveal_strlit("?");
        assert(list[45] =~= seq![c]);
    } else if c == '@' {
        reveal_strlit("@");
        assert(list[46] =~= seq![c]);
    } else if c == '[' {
        reveal_strlit("[");
        assert(list[47] =~= seq![c]);
    } else if c == '\\' {
        reveal_strlit("\\");
        assert(list[48] =~= seq![c]);
    } else if c == ']' {
        reveal_strlit("]");
        assert(list[49] =~= seq![c]);
    } else if c == '^' {
        reveal_strlit("^");
        assert(list[50] =~= seq![c]);
    } else if c == '_' {
        reveal_strlit("_");
        assert(list[51] =~= seq![c]);
    } else if c == '`' {
        reveal_strlit("`");
        assert(list[52] =~= seq![c]);
    } else if c == '{' {
        reveal_strlit("{");
        assert(list[53] =~= seq![c]);
    } else if c == '|' {
        reveal_strlit("|");
        assert(list[54] =~= seq![c]);
    } else if c == '}' {
        reveal_strlit("}");
        assert(list[55] =~= seq![c]);
    } else if c == '~' {
        reveal_strlit("~");
        assert(list[56] =~= seq![c]);
    } else {
        assert(false);
    }
}

/// No ASCII punctuation mark, as a string of one character, ends a sentence,
/// a paragraph or a line: each is a soft separator.
pub proof fn lemma_ascii_punctuation_is_soft(c: char)
    requires
        is_ascii_punctuation(c),
    ensures
        !context_separators().contains(seq![c]),
        separator_kind_of(seq![c]) == SeparatorKind::Soft,
{
    reveal_strlit("\u{000A}");
    reveal_strlit("\u{000B}");
    reveal_strlit("\u{000C}");
    reveal_strlit("\u{000D}");
    reveal_strlit("\u{0085}");
    reveal_strlit("\u{2028}");
    reveal_strlit("\u{2029}");
    reveal_strlit(". ");
    reveal_strlit("! ");
    reveal_strlit("? ");
    reveal_strlit("\u{00B6}");
    reveal_strlit("\u{0589}");
    reveal_strlit("\u{05C3}");
    reveal_strlit("\u{061F}");
    reveal_strlit("\u{06D4}");
    reveal_strlit("\u{0964}");
    reveal_strlit("\u{0965}");
    reveal_strlit("\u{1362}");
    reveal_strlit("\u{1368}");
    reveal_strlit("\u{166E}");
    reveal_strlit("\u{1806}");
    reveal_strlit("\u{3002}");
    reveal_strlit("\u{FF01}");
    reveal_strlit("\u{FF0E}");
    reveal_strlit("\u{FF1F}");
    let list = context_separators();
    assert forall|i: int| 0 <= i < list.len() implies list[i] != seq![c] by {
        assert(list[i].len() != 1 || list[i][0] != c);
    }
}

/// The line breaks, and a full stop, question mark or exclamation mark
/// followed by a space, end a sentence, a paragraph or a line: each is a hard
/// separator.
pub proof fn lemma_line_breaks_and_sentence_ends_are_hard()
    ensures
        separator_kind_of(seq!['\u{000A}']) == SeparatorKind::Hard,
        default_separators().contains(seq!['\u{000A}']),
        separator_kind_of(seq!['\u{000B}']) == SeparatorKind::Hard,
        default_separators().contains(seq!['\u{000B}']),
        separator_kind_of(seq!['\u{000C}']) == SeparatorKind::Hard,
        default_separators().contains(seq!['\u{000C}']),
        separator_kind_of(seq!['\u{000D}']) == SeparatorKind::Hard,
        default_separators().contains(seq!['\u{000D}']),
        separator_kind_of(seq!['.', ' ']) == SeparatorKind::Hard,
        default_separators().contains(seq!['.', ' ']),
        separator_kind_of(seq!['!', ' ']) == SeparatorKind::Hard,
        default_separators().contains(seq!['!', ' ']),
        separator_kind_of(seq!['?', ' ']) == SeparatorKind::Hard,
        default_separators().contains(seq!['?', ' ']),
{
    reveal_strlit("\u{000A}");
    assert(context_separators()[0] =~= seq!['\u{000A}']);
    assert(default_separators()[1] =~= seq!['\u{000A}']);
    reveal_strlit("\u{000B}");
    assert(context_separators()[1] =~= seq!['\u{000B}']);
    assert(default_separators()[2] =~= seq!['\u{000B}']);
    reveal_strlit("\u{000C}");
    assert(context_separators()[2] =~= seq!['\u{000C}']);
    assert(default_separators()[3] =~= seq!['\u{000C}']);
    reveal_strlit("\u{000D}");
    assert(context_separators()[3] =~= seq!['\u{000D}']);
    assert(default_separators()[4] =~= seq!['\u{000D}']);
    reveal_strlit(". ");
    assert(context_separators()[7] =~= seq!['.', ' ']);
    assert(default_separators()[57] =~= seq!['.', ' ']);
    reveal_strlit("! ");
    assert(context_separators()[8] =~= seq!['!', ' ']);
    assert(default_separators()[58] =~= seq!['!', ' ']);
    reveal_strlit("? ");
    assert(context_separators()[9] =~= seq!['?', ' ']);
    assert(default_separators()[59] =~= seq!['?', ' ']);
}
/// With no stop word and no separators given, every ASCII punctuation mark is
/// classified as a soft separator, and every ASCII space and line break as a
/// separator.
pub proof fn lemma_ascii_punctuation_and_spaces_are_default_separators(
    options: ClassifierOption,
    c: char,
)
    requires
        options.stop_words is None,
        options.separators is None,
        is_ascii_punctuation(c) || is_ascii_space(c),
    ensures
        classified_kind(options, seq![c]) is Separator,
        is_ascii_punctuation(c) ==> classified_kind(options, seq![c]) == TokenKind::Separator(
            SeparatorKind::Soft,
        ),
{
    lemma_default_separators_hold_ascii_punctuation_and_spaces(c);
    if is_ascii_punctuation(c) {
        lemma_ascii_punctuation_is_soft(c);
    }
}

} // verus!
