//! The state that looks for a syllabogram of a given number of characters.

use vstd::prelude::*;

verus! {

/// Looks for a syllabogram that fills a window of `SIZE` characters. It holds
/// the word that is left and the character that toggles the kana.
#[derive(Debug, PartialEq)]
pub struct Syllabogram<'a, const SIZE: usize>(pub &'a str, pub Option<char>);

} // verus!
