//! Comparisons of texts, and the folding of a key to lower case.

use vstd::prelude::*;
use vstd::string::*;
use vstd::utf8::*;
use crate::utf8::{lemma_encode_injective, prefix, suffix};

verus! {

/// The view of a text that may be absent.
pub open spec fn text_of(fragment: Option<&str>) -> Option<Seq<char>> {
    match fragment {
        Some(s) => Some(s@),
        None => None,
    }
}

/// Whether `s` begins with the character `c`.
pub open spec fn begins_with(s: Seq<char>, c: char) -> bool {
    s.len() > 0 && s[0] == c
}

/// Whether `s` begins with a configured character; with none configured it
/// never does.
pub open spec fn begins_with_some(s: Seq<char>, c: Option<char>) -> bool {
    match c {
        Some(c) => begins_with(s, c),
        None => false,
    }
}

/// The lower-case form of a text, as `str::to_lowercase` computes it from the
/// Unicode tables.
pub uninterp spec fn lowercase_of(text: Seq<char>) -> Seq<char>;

/// Calls `str::to_lowercase`. The result depends on the characters of `s`
/// alone, and the contract gives it the name `lowercase_of`; what it holds is
/// not stated.
#[verifier::external_body]
pub(crate) fn to_lowercase(s: &str) -> (folded: String)
    ensures
        folded@ == lowercase_of(s@),
{
    s.to_lowercase()
}

/// Whether two texts hold the same characters.
pub fn same_text(a: &str, b: &str) -> (same: bool)
    ensures
        same == (a@ == b@),
{
    let left = a.as_bytes();
    let right = b.as_bytes();
    if left.len() != right.len() {
        return false;
    }
    let mut i: usize = 0;
    while i < left.len()
        invariant
            i <= left.len(),
            left.len() == right.len(),
            left@ == a.spec_bytes(),
            right@ == b.spec_bytes(),
            forall|j: int| 0 <= j < i ==> left@[j] == right@[j],
        decreases left.len() - i,
    {
        if left[i] != right[i] {
            return false;
        }
        i = i + 1;
    }
    proof {
        assert(left@ =~= right@);
        lemma_encode_injective(a@, b@);
    }
    true
}

/// Whether `s` begins with the character `c`.
pub fn starts_with(s: &str, c: char) -> (hit: bool)
    ensures
        hit == begins_with(s@, c),
{
    !s.is_empty() && s.get_char(0) == c
}

/// Whether the character of a feature, if it has one, is absent from `text`.
pub open spec fn free_of(text: Seq<char>, c: Option<char>) -> bool {
    match c {
        Some(c) => !text.contains(c),
        None => true,
    }
}

/// A character that is absent from a text is absent from what is left of the
/// text behind any number of its characters.
pub proof fn lemma_free_of_behind(text: Seq<char>, c: Option<char>, n: int)
    requires
        free_of(text, c),
        0 <= n <= text.len(),
    ensures
        free_of(text.skip(n), c),
{
    match c {
        Some(c) => {
            let rest = text.skip(n);
            assert forall|i: int| 0 <= i < rest.len() implies rest[i] != c by {
                assert(rest[i] == text[i + n]);
            }
        },
        None => {},
    }
}

/// A character that is absent from a text stands neither at its start nor
/// behind its first character.
pub proof fn lemma_free_of_start(text: Seq<char>, c: Option<char>)
    requires
        free_of(text, c),
    ensures
        !begins_with_some(text, c),
        !begins_with_some(prefix(text, 2), c),
        !begins_with_some(suffix(text, 1), c),
{
    match c {
        Some(c) => {
            if text.len() > 0 {
                assert(text[0] != c);
            }
            if text.len() > 1 {
                assert(text[1] != c);
            }
        },
        None => {},
    }
}

/// Whether the character `c` stands somewhere in `s`.
pub fn contains_char(s: &str, c: char) -> (found: bool)
    ensures
        found == s@.contains(c),
{
    let count = s.unicode_len();
    let mut i: usize = 0;
    while i < count
        invariant
            i <= count == s@.len(),
            forall|j: int| 0 <= j < i ==> s@[j] != c,
        decreases count - i,
    {
        if s.get_char(i) == c {
            return true;
        }
        i = i + 1;
    }
    false
}

} // verus!
