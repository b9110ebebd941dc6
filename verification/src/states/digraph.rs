//! The state that looks for a digraph: a syllabogram of three characters.

use vstd::prelude::*;
use crate::machine::{NextState, Next, Previous, Stage, State};
use crate::states::{Choonpu, KanaToggle, Monograph, Sukuon};
use crate::table::KanaTable;
use crate::util;

verus! {

/// The number of characters in the window.
pub const SIZE: usize = 3;

/// Looks for a syllabogram of three characters. It holds the word that is left
/// and the character that toggles the kana.
#[derive(Debug, PartialEq)]
pub struct Digraph<'a>(pub &'a str, pub Option<char>);

impl<'a> Next<'a> for Digraph<'a> {
    /// This state as plain values.
    open spec fn stage(self) -> Stage {
        Stage::Digraph(self.0@, self.1)
    }

    /// Looks the first three characters up. A word that is too short or has no
    /// syllabogram there goes on to the monograph.
    fn next(self, table: &KanaTable<'a>) -> (taken: (Option<&'a str>, NextState<'a>)) {
        let word = self.0;
        if util::utf8_word_count(word) < SIZE {
            return (None, Monograph::prev(self).into());
        }
        let query = util::utf8_word_slice_until(word, SIZE);
        match table.get(query) {
            None => (None, Monograph::prev(self).into()),
            Some(s) => (
                Some(s),
                if table.graphemes.choonpu.is_some() {
                    Choonpu::prev(self).into()
                } else {
                    KanaToggle::prev(self).into()
                },
            ),
        }
    }
}

impl<'a> Previous<'a, Sukuon<'a>> for Digraph<'a> {
    open spec fn entered(state: Sukuon<'a>) -> Stage {
        Stage::Digraph(state.0@, state.1)
    }

    fn prev(state: Sukuon<'a>) -> (reached: Self) {
        Digraph(state.0, state.1)
    }
}

impl<'a> From<Digraph<'a>> for NextState<'a> {
    fn from(state: Digraph<'a>) -> (next: Self) {
        Some(State::Digraph(state))
    }
}

impl<'a> vstd::std_specs::convert::FromSpecImpl<Digraph<'a>> for NextState<'a> {
    open spec fn obeys_from_spec() -> bool {
        true
    }

    open spec fn from_spec(state: Digraph<'a>) -> Self {
        Some(State::Digraph(state))
    }
}

} // verus!
