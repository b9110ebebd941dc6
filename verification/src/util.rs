//! Words counted and cut by characters.

use vstd::prelude::*;
use vstd::string::*;
use crate::utf8::{byte_offset, count_chars, prefix, slice_from, slice_to, suffix};

verus! {

/// The number of characters in `word`.
pub fn utf8_word_count(word: &str) -> (n: usize)
    ensures
        n == word@.len(),
{
    count_chars(word)
}

/// What is left of `word` behind its first `n` characters.
pub fn utf8_word_slice_from<'a>(word: &'a str, n: usize) -> (tail: &'a str)
    ensures
        tail@ == suffix(word@, n as int),
        tail.spec_bytes() == word.spec_bytes().skip(byte_offset(word@, n as int)),
{
    slice_from(word, n)
}

/// The first `n` characters of `word`.
pub fn utf8_word_slice_until<'a>(word: &'a str, n: usize) -> (head: &'a str)
    ensures
        head@ == prefix(word@, n as int),
        head.spec_bytes() == word.spec_bytes().take(byte_offset(word@, n as int)),
{
    slice_to(word, n)
}

} // verus!
