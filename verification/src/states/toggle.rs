//! The state that looks for a character that toggles something.

use vstd::prelude::*;

verus! {

/// The number of characters that a toggle takes.
pub const SIZE: usize = 1;

/// What a toggle toggles.
pub enum Type {
    /// The kana: hiragana or katakana.
    Kana,
}

/// Looks for the toggle character at the start of the word. It holds the word
/// that is left, the character, and whether the state before it found the
/// character.
#[derive(Debug, PartialEq)]
pub struct Toggle<'a, const TYPE: usize>(pub &'a str, pub Option<char>, pub bool);

} // verus!
