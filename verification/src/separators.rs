//! The strings that separate words, and among them those that separate
//! sentences or paragraphs.

use vstd::prelude::*;

use crate::strings::views_of;

verus! {

/// The separators that split words when the caller gives no list of its own:
/// spaces and line breaks, punctuation, and a sentence end followed by a
/// space.
pub open spec fn default_separators() -> Seq<Seq<char>> {
    views_of(default_separator_list_spec())
}

/// The separators that end a sentence, a paragraph or a line; a separator of
/// this kind is a hard one.
pub open spec fn context_separators() -> Seq<Seq<char>> {
    views_of(context_separator_list_spec())
}

/// The strings of [`default_separators`].
pub open spec fn default_separator_list_spec() -> Seq<&'static str> {
    seq![
        "\u{0009}", "\u{000A}", "\u{000B}", "\u{000C}", "\u{000D}", " ", "\u{0085}",
        "\u{00A0}", "\u{1680}", "\u{2000}", "\u{2001}", "\u{2002}", "\u{2003}", "\u{2004}",
        "\u{2005}", "\u{2006}", "\u{2007}", "\u{2008}", "\u{2009}", "\u{200A}", "\u{2028}",
        "\u{2029}", "\u{202F}", "\u{205F}", "\u{3000}", "!", "\"", "#", "$", "%", "&", "'",
        "(", ")", "*", "+", ",", "-", ".", "/", ":", ";", "<", "=", ">", "?", "@", "[", "\\",
        "]", "^", "_", "`", "{", "|", "}", "~", ". ", "! ", "? ", "\u{00A1}", "\u{00A7}",
        "\u{00AB}", "\u{00B6}", "\u{00B7}", "\u{00BB}", "\u{00BF}", "\u{2010}", "\u{2011}",
        "\u{2012}", "\u{2013}", "\u{2014}", "\u{2015}", "\u{2016}", "\u{2018}", "\u{2019}",
        "\u{201A}", "\u{201C}", "\u{201D}", "\u{201E}", "\u{2020}", "\u{2021}", "\u{2022}",
        "\u{2026}", "\u{2030}", "\u{2039}", "\u{203A}", "\u{3001}", "\u{3002}", "\u{3008}",
        "\u{3009}", "\u{300A}", "\u{300B}", "\u{300C}", "\u{300D}", "\u{300E}", "\u{300F}",
        "\u{3010}", "\u{3011}", "\u{FF01}", "\u{FF0C}", "\u{FF0E}", "\u{FF1A}", "\u{FF1B}",
        "\u{FF1F}", "\u{0589}", "\u{05C3}", "\u{061F}", "\u{06D4}", "\u{0964}", "\u{0965}",
        "\u{1362}", "\u{1368}", "\u{166E}", "\u{1806}",
    ]
}

/// The strings of [`context_separators`].
pub open spec fn context_separator_list_spec() -> Seq<&'static str> {
    seq![
        "\u{000A}", "\u{000B}", "\u{000C}", "\u{000D}", "\u{0085}", "\u{2028}", "\u{2029}",
        ". ", "! ", "? ", "\u{00B6}", "\u{0589}", "\u{05C3}", "\u{061F}", "\u{06D4}",
        "\u{0964}", "\u{0965}", "\u{1362}", "\u{1368}", "\u{166E}", "\u{1806}", "\u{3002}",
        "\u{FF01}", "\u{FF0E}", "\u{FF1F}",
    ]
}

/// The strings of [`default_separators`], in order.
pub fn default_separator_list() -> (r: Vec<&'static str>)
    ensures
        r@ == default_separator_list_spec(),
{
    let r = vec![
        "\u{0009}", "\u{000A}", "\u{000B}", "\u{000C}", "\u{000D}", " ", "\u{0085}",
        "\u{00A0}", "\u{1680}", "\u{2000}", "\u{2001}", "\u{2002}", "\u{2003}", "\u{2004}",
        "\u{2005}", "\u{2006}", "\u{2007}", "\u{2008}", "\u{2009}", "\u{200A}", "\u{2028}",
        "\u{2029}", "\u{202F}", "\u{205F}", "\u{3000}", "!", "\"", "#", "$", "%", "&", "'",
        "(", ")", "*", "+", ",", "-", ".", "/", ":", ";", "<", "=", ">", "?", "@", "[", "\\",
        "]", "^", "_", "`", "{", "|", "}", "~", ". ", "! ", "? ", "\u{00A1}", "\u{00A7}",
        "\u{00AB}", "\u{00B6}", "\u{00B7}", "\u{00BB}", "\u{00BF}", "\u{2010}", "\u{2011}",
        "\u{2012}", "\u{2013}", "\u{2014}", "\u{2015}", "\u{2016}", "\u{2018}", "\u{2019}",
        "\u{201A}", "\u{201C}", "\u{201D}", "\u{201E}", "\u{2020}", "\u{2021}", "\u{2022}",
        "\u{2026}", "\u{2030}", "\u{2039}", "\u{203A}", "\u{3001}", "\u{3002}", "\u{3008}",
        "\u{3009}", "\u{300A}", "\u{300B}", "\u{300C}", "\u{300D}", "\u{300E}", "\u{300F}",
        "\u{3010}", "\u{3011}", "\u{FF01}", "\u{FF0C}", "\u{FF0E}", "\u{FF1A}", "\u{FF1B}",
        "\u{FF1F}", "\u{0589}", "\u{05C3}", "\u{061F}", "\u{06D4}", "\u{0964}", "\u{0965}",
        "\u{1362}", "\u{1368}", "\u{166E}", "\u{1806}",
    ];
    assert(r@ =~= default_separator_list_spec());
    r
}

/// The strings of [`context_separators`], in order.
pub fn context_separator_list() -> (r: Vec<&'static str>)
    ensures
        r@ == context_separator_list_spec(),
{
    let r = vec![
        "\u{000A}", "\u{000B}", "\u{000C}", "\u{000D}", "\u{0085}", "\u{2028}", "\u{2029}",
        ". ", "! ", "? ", "\u{00B6}", "\u{0589}", "\u{05C3}", "\u{061F}", "\u{06D4}",
        "\u{0964}", "\u{0965}", "\u{1362}", "\u{1368}", "\u{166E}", "\u{1806}", "\u{3002}",
        "\u{FF01}", "\u{FF0E}", "\u{FF1F}",
    ];
    assert(r@ =~= context_separator_list_spec());
    r
}

} // verus!
