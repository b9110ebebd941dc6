//! The state that looks for a doubled consonant.

use vstd::prelude::*;
use crate::machine::{NextState, Next, Previous, Stage, State};
use crate::states::{KanaToggle, LongDigraph, Syllabogram, LONG_SIZE, MEDIUM_SIZE, TINY_SIZE};
use crate::table::KanaTable;
use crate::util;

verus! {

/// The number of characters that a doubled consonant takes.
pub const SIZE: usize = 2;

/// Looks for a doubled consonant. It holds the word that is left and the
/// character that toggles the kana.
#[derive(Debug, PartialEq)]
pub struct Sukuon<'a>(pub &'a str, pub Option<char>);

impl<'a> Next<'a> for Sukuon<'a> {
    /// This state as plain values.
    open spec fn stage(self) -> Stage {
        Stage::Sukuon(self.0@, self.1)
    }

    /// Writes the sukuon for the first of two equal consonants. A word of one
    /// character goes on to the window of one, any other to the window of
    /// three.
    fn next(self, table: &KanaTable<'a>) -> (taken: (Option<&'a str>, NextState<'a>)) {
        let word = self.0;
        if util::utf8_word_count(word) < SIZE {
            return (None, Syllabogram::<'a, TINY_SIZE>::prev(self).into());
        }
        let query = util::utf8_word_slice_until(word, SIZE);
        if table.graphemes.sukuon.has(query) {
            (Some(table.graphemes.sukuon.graph), KanaToggle::prev(self).into())
        } else {
            (None, Syllabogram::<'a, MEDIUM_SIZE>::prev(self).into())
        }
    }
}

impl<'a> Previous<'a, Syllabogram<'a, LONG_SIZE>> for Sukuon<'a> {
    open spec fn entered(state: Syllabogram<'a, LONG_SIZE>) -> Stage {
        Stage::Sukuon(state.0@, state.1)
    }

    fn prev(state: Syllabogram<'a, LONG_SIZE>) -> (reached: Self) {
        Sukuon(state.0, state.1)
    }
}

impl<'a> Previous<'a, LongDigraph<'a>> for Sukuon<'a> {
    open spec fn entered(state: LongDigraph<'a>) -> Stage {
        Stage::Sukuon(state.0@, None)
    }

    fn prev(state: LongDigraph<'a>) -> (reached: Self) {
        Sukuon(state.0, None)
    }
}

impl<'a> From<Sukuon<'a>> for NextState<'a> {
    fn from(state: Sukuon<'a>) -> (next: Self) {
        Some(State::Sukuon(state))
    }
}

impl<'a> vstd::std_specs::convert::FromSpecImpl<Sukuon<'a>> for NextState<'a> {
    open spec fn obeys_from_spec() -> bool {
        true
    }

    open spec fn from_spec(state: Sukuon<'a>) -> Self {
        Some(State::Sukuon(state))
    }
}

} // verus!
