//! The state that looks for a monograph: a syllabogram of two characters.

use vstd::prelude::*;
use crate::machine::{NextState, Next, Previous, Stage, State};
use crate::states::{Choonpu, Digraph, KanaToggle, Nasal};
use crate::table::KanaTable;
use crate::util;

verus! {

/// The number of characters in the window.
pub const SIZE: usize = 2;

/// Looks for a syllabogram of two characters. It holds the word that is left
/// and the character that toggles the kana.
#[derive(Debug, PartialEq)]
pub struct Monograph<'a>(pub &'a str, pub Option<char>);

impl<'a> Next<'a> for Monograph<'a> {
    /// This state as plain values.
    open spec fn stage(self) -> Stage {
        Stage::Monograph(self.0@, self.1)
    }

    /// Looks the first two characters up. A word that is too short or has no
    /// syllabogram there goes on to the nasal.
    fn next(self, table: &KanaTable<'a>) -> (taken: (Option<&'a str>, NextState<'a>)) {
        let word = self.0;
        if util::utf8_word_count(word) < SIZE {
            return (None, Nasal::prev(self).into());
        }
        let query = util::utf8_word_slice_until(word, SIZE);
        match table.get(query) {
            None => (None, Nasal::prev(self).into()),
            Some(s) => (
                Some(s),
                if table.graphemes.choonpu.is_some() {
                    Choonpu::prev(self).into()
                } else {
                    KanaToggle::prev(self).into()
                },
            ),
        }
    }
}

impl<'a> Previous<'a, Digraph<'a>> for Monograph<'a> {
    open spec fn entered(state: Digraph<'a>) -> Stage {
        Stage::Monograph(state.0@, state.1)
    }

    fn prev(state: Digraph<'a>) -> (reached: Self) {
        Monograph(state.0, state.1)
    }
}

impl<'a> From<Monograph<'a>> for NextState<'a> {
    fn from(state: Monograph<'a>) -> (next: Self) {
        Some(State::Monograph(state))
    }
}

impl<'a> vstd::std_specs::convert::FromSpecImpl<Monograph<'a>> for NextState<'a> {
    open spec fn obeys_from_spec() -> bool {
        true
    }

    open spec fn from_spec(state: Monograph<'a>) -> Self {
        Some(State::Monograph(state))
    }
}

} // verus!
