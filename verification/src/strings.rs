//! Comparison of strings by their characters.

use vstd::prelude::*;
use vstd::string::StringSliceAdditionalSpecFns;
use vstd::utf8::{encode_utf8, encode_utf8_decode_utf8};

verus! {

/// The views of a list of strings.
pub open spec fn views_of(list: Seq<&str>) -> Seq<Seq<char>> {
    list.map_values(|s: &str| s@)
}

/// Whether `a` and `b` hold the same characters.
pub fn str_eq(a: &str, b: &str) -> (r: bool)
    ensures
        r == (a@ == b@),
{
    let x = a.as_bytes();
    let y = b.as_bytes();
    proof {
        encode_utf8_decode_utf8(a@);
        encode_utf8_decode_utf8(b@);
    }
    if x.len() != y.len() {
        return false;
    }
    let mut i: usize = 0;
    while i < x.len()
        invariant
            x@ == encode_utf8(a@),
            y@ == encode_utf8(b@),
            x@.len() == y@.len(),
            i <= x@.len(),
            forall|j: int| 0 <= j < i ==> x@[j] == y@[j],
        decreases x@.len() - i,
    {
        if x[i] != y[i] {
            return false;
        }
        i = i + 1;
    }
    assert(x@ =~= y@);
    true
}

/// Whether `list` holds a string with the same characters as `s`.
pub fn contains_str(list: &[&str], s: &str) -> (r: bool)
    ensures
        r == views_of(list@).contains(s@),
{
    let mut i: usize = 0;
    while i < list.len()
        invariant
            i <= list@.len(),
            forall|j: int| 0 <= j < i ==> list@[j]@ != s@,
        decreases list@.len() - i,
    {
        if str_eq(list[i], s) {
            assert(views_of(list@)[i as int] == s@);
            return true;
        }
        i = i + 1;
    }
    assert forall|j: int| 0 <= j < views_of(list@).len() implies views_of(list@)[j] != s@ by {
        assert(list@[j]@ != s@);
    }
    false
}

/// Whether the byte string `a` comes before `b` or equals it, in the
/// lexicographic order of byte strings (a prefix comes first).
pub open spec fn bytes_le(a: Seq<u8>, b: Seq<u8>) -> bool
    decreases a.len(),
{
    if a.len() == 0 {
        true
    } else if b.len() == 0 {
        false
    } else if a[0] != b[0] {
        a[0] < b[0]
    } else {
        bytes_le(a.drop_first(), b.drop_first())
    }
}

/// Whether the byte string `a` comes before `b` or equals it.
pub fn bytes_le_exec(a: &[u8], b: &[u8]) -> (r: bool)
    ensures
        r == bytes_le(a@, b@),
{
    let mut i: usize = 0;
    assert(a@.skip(0) =~= a@ && b@.skip(0) =~= b@);
    while i < a.len() && i < b.len()
        invariant
            i <= a@.len(),
            i <= b@.len(),
            bytes_le(a@, b@) == bytes_le(a@.skip(i as int), b@.skip(i as int)),
        decreases a@.len() - i,
    {
        assert(a@.skip(i as int)[0] == a@[i as int] && b@.skip(i as int)[0] == b@[i as int]);
        if a[i] != b[i] {
            return a[i] < b[i];
        }
        assert(a@.skip(i as int).drop_first() =~= a@.skip(i + 1));
        assert(b@.skip(i as int).drop_first() =~= b@.skip(i + 1));
        i = i + 1;
    }
    i == a.len()
}

/// Whether each string of `words` comes, by its UTF-8 bytes, after the one
/// before it or equals it.
pub open spec fn sorted_by_bytes(words: Seq<&str>) -> bool {
    forall|i: int| 0 < i < words.len() ==> bytes_le(#[trigger] words[i - 1].spec_bytes(), words[i].spec_bytes())
}

/// Whether each string of `words` comes, by its UTF-8 bytes, after the one
/// before it or equals it.
pub fn is_sorted_by_bytes(words: &[&str]) -> (r: bool)
    ensures
        r == sorted_by_bytes(words@),
{
    let mut i: usize = 1;
    while i < words.len()
        invariant
            1 <= i,
            forall|j: int| 0 < j < i && j < words@.len() ==> bytes_le(#[trigger] words@[j - 1].spec_bytes(), words@[j].spec_bytes()),
        decreases words@.len() - i,
    {
        if !bytes_le_exec(words[i - 1].as_bytes(), words[i].as_bytes()) {
            return false;
        }
        i = i + 1;
    }
    true
}

} // verus!
