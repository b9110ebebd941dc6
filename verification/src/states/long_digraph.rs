//! The state that looks for a long digraph: a syllabogram of four characters.

use vstd::prelude::*;
use crate::machine::{NextState, Next, Previous, Stage, State};
use crate::states::{Choonpu, Digraph, Monograph, Nasal, Sukuon};
use crate::states::{digraph, monograph, nasal, CHOONPU_SIZE, SUKUON_SIZE};
use crate::table::KanaTable;
use crate::utf8::suffix;
use crate::util;

verus! {

/// The number of characters in the window.
pub const SIZE: usize = 4;

/// Looks for a syllabogram of four characters. It holds the word that is
/// left; under it the kana is never toggled.
#[derive(Debug, PartialEq)]
pub struct LongDigraph<'a>(pub &'a str);

impl<'a> Next<'a> for LongDigraph<'a> {
    /// This state as plain values.
    open spec fn stage(self) -> Stage {
        Stage::LongDigraph(self.0@)
    }

    /// Looks the first four characters up. A word that is too short or has no
    /// syllabogram there goes on to the sukuon.
    fn next(self, table: &KanaTable<'a>) -> (taken: (Option<&'a str>, NextState<'a>)) {
        let word = self.0;
        if util::utf8_word_count(word) < SIZE {
            return (None, Sukuon::prev(self).into());
        }
        let query = util::utf8_word_slice_until(word, SIZE);
        match table.get(query) {
            None => (None, Sukuon::prev(self).into()),
            Some(s) => (
                Some(s),
                if table.graphemes.choonpu.is_some() {
                    Choonpu::prev(self).into()
                } else {
                    LongDigraph::prev(self).into()
                },
            ),
        }
    }
}

impl<'a> Previous<'a, LongDigraph<'a>> for LongDigraph<'a> {
    open spec fn entered(state: LongDigraph<'a>) -> Stage {
        Stage::LongDigraph(suffix(state.0@, SIZE as int))
    }

    fn prev(state: LongDigraph<'a>) -> (reached: Self) {
        LongDigraph(util::utf8_word_slice_from(state.0, SIZE))
    }
}

impl<'a> Previous<'a, Digraph<'a>> for LongDigraph<'a> {
    open spec fn entered(state: Digraph<'a>) -> Stage {
        Stage::LongDigraph(suffix(state.0@, digraph::SIZE as int))
    }

    fn prev(state: Digraph<'a>) -> (reached: Self) {
        LongDigraph(util::utf8_word_slice_from(state.0, digraph::SIZE))
    }
}

impl<'a> Previous<'a, Monograph<'a>> for LongDigraph<'a> {
    open spec fn entered(state: Monograph<'a>) -> Stage {
        Stage::LongDigraph(suffix(state.0@, monograph::SIZE as int))
    }

    fn prev(state: Monograph<'a>) -> (reached: Self) {
        LongDigraph(util::utf8_word_slice_from(state.0, monograph::SIZE))
    }
}

impl<'a> Previous<'a, Nasal<'a>> for LongDigraph<'a> {
    open spec fn entered(state: Nasal<'a>) -> Stage {
        Stage::LongDigraph(suffix(state.0@, nasal::SIZE as int))
    }

    fn prev(state: Nasal<'a>) -> (reached: Self) {
        LongDigraph(util::utf8_word_slice_from(state.0, nasal::SIZE))
    }
}

impl<'a> Previous<'a, Sukuon<'a>> for LongDigraph<'a> {
    open spec fn entered(state: Sukuon<'a>) -> Stage {
        Stage::LongDigraph(suffix(state.0@, SUKUON_SIZE - 1))
    }

    fn prev(state: Sukuon<'a>) -> (reached: Self) {
        LongDigraph(util::utf8_word_slice_from(state.0, SUKUON_SIZE - 1))
    }
}

impl<'a> Previous<'a, Choonpu<'a>> for LongDigraph<'a> {
    open spec fn entered(state: Choonpu<'a>) -> Stage {
        Stage::LongDigraph(suffix(state.0@, CHOONPU_SIZE - 1))
    }

    fn prev(state: Choonpu<'a>) -> (reached: Self) {
        LongDigraph(util::utf8_word_slice_from(state.0, CHOONPU_SIZE - 1))
    }
}

impl<'a> From<LongDigraph<'a>> for NextState<'a> {
    fn from(state: LongDigraph<'a>) -> (next: Self) {
        Some(State::LongDigraph(state))
    }
}

impl<'a> vstd::std_specs::convert::FromSpecImpl<LongDigraph<'a>> for NextState<'a> {
    open spec fn obeys_from_spec() -> bool {
        true
    }

    open spec fn from_spec(state: LongDigraph<'a>) -> Self {
        Some(State::LongDigraph(state))
    }
}

} // verus!
