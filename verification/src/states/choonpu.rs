//! The state that looks for a long vowel.

use vstd::prelude::*;
use crate::machine::{NextState, Next, Previous, Stage, State};
use crate::states::{
    Digraph, KanaToggle, LongDigraph, Monograph, Nasal, Syllabogram, LONG_SIZE, MEDIUM_SIZE,
    SHORT_SIZE, TINY_SIZE,
};
use crate::states::{digraph, long_digraph, monograph};
use crate::table::KanaTable;
use crate::utf8::suffix;
use crate::util;

verus! {

/// The number of characters that a long vowel takes.
pub const SIZE: usize = 2;

/// Looks for a vowel that repeats the one before it. It holds the word from
/// the last character of the syllable just written, the character that toggles
/// the kana, and whether a choonpu was written just before it.
#[derive(Debug, PartialEq)]
pub struct Choonpu<'a>(pub &'a str, pub Option<char>, pub bool);

impl<'a> Next<'a> for Choonpu<'a> {
    /// This state as plain values.
    open spec fn stage(self) -> Stage {
        Stage::Choonpu(self.0@, self.1, self.2)
    }

    /// Writes the choonpu for a vowel that repeats the one before it, where the
    /// kana has a choonpu, and then looks for one more.
    fn next(self, table: &KanaTable<'a>) -> (taken: (Option<&'a str>, NextState<'a>)) {
        let word = self.0;
        if util::utf8_word_count(word) < SIZE {
            return (None, Syllabogram::<'a, TINY_SIZE>::prev(self).into());
        }
        let query = util::utf8_word_slice_until(word, SIZE);
        let graph = match &table.graphemes.choonpu {
            Some(choonpu) => if choonpu.has(query) {
                Some(choonpu.graph)
            } else {
                None
            },
            None => None,
        };
        match graph {
            Some(graph) => (Some(graph), Choonpu::prev(self).into()),
            None => (None, KanaToggle::prev(self).into()),
        }
    }
}

impl<'a> Previous<'a, Choonpu<'a>> for Choonpu<'a> {
    open spec fn entered(state: Choonpu<'a>) -> Stage {
        Stage::Choonpu(suffix(state.0@, SIZE - 1), state.1, true)
    }

    fn prev(state: Choonpu<'a>) -> (reached: Self) {
        Choonpu(util::utf8_word_slice_from(state.0, SIZE - 1), state.1, true)
    }
}

impl<'a> Previous<'a, Syllabogram<'a, LONG_SIZE>> for Choonpu<'a> {
    open spec fn entered(state: Syllabogram<'a, LONG_SIZE>) -> Stage {
        Stage::Choonpu(suffix(state.0@, LONG_SIZE - 1), state.1, false)
    }

    fn prev(state: Syllabogram<'a, LONG_SIZE>) -> (reached: Self) {
        Choonpu(util::utf8_word_slice_from(state.0, LONG_SIZE - 1), state.1, false)
    }
}

impl<'a> Previous<'a, Syllabogram<'a, MEDIUM_SIZE>> for Choonpu<'a> {
    open spec fn entered(state: Syllabogram<'a, MEDIUM_SIZE>) -> Stage {
        Stage::Choonpu(suffix(state.0@, MEDIUM_SIZE - 1), state.1, false)
    }

    fn prev(state: Syllabogram<'a, MEDIUM_SIZE>) -> (reached: Self) {
        Choonpu(util::utf8_word_slice_from(state.0, MEDIUM_SIZE - 1), state.1, false)
    }
}

impl<'a> Previous<'a, Syllabogram<'a, SHORT_SIZE>> for Choonpu<'a> {
    open spec fn entered(state: Syllabogram<'a, SHORT_SIZE>) -> Stage {
        Stage::Choonpu(suffix(state.0@, SHORT_SIZE - 1), state.1, false)
    }

    fn prev(state: Syllabogram<'a, SHORT_SIZE>) -> (reached: Self) {
        Choonpu(util::utf8_word_slice_from(state.0, SHORT_SIZE - 1), state.1, false)
    }
}

impl<'a> Previous<'a, Syllabogram<'a, TINY_SIZE>> for Choonpu<'a> {
    open spec fn entered(state: Syllabogram<'a, TINY_SIZE>) -> Stage {
        Stage::Choonpu(state.0@, state.1, false)
    }

    fn prev(state: Syllabogram<'a, TINY_SIZE>) -> (reached: Self) {
        Choonpu(state.0, state.1, false)
    }
}

impl<'a> Previous<'a, LongDigraph<'a>> for Choonpu<'a> {
    open spec fn entered(state: LongDigraph<'a>) -> Stage {
        Stage::Choonpu(suffix(state.0@, long_digraph::SIZE - 1), None, false)
    }

    fn prev(state: LongDigraph<'a>) -> (reached: Self) {
        Choonpu(util::utf8_word_slice_from(state.0, long_digraph::SIZE - 1), None, false)
    }
}

impl<'a> Previous<'a, Digraph<'a>> for Choonpu<'a> {
    open spec fn entered(state: Digraph<'a>) -> Stage {
        Stage::Choonpu(suffix(state.0@, digraph::SIZE - 1), state.1, false)
    }

    fn prev(state: Digraph<'a>) -> (reached: Self) {
        Choonpu(util::utf8_word_slice_from(state.0, digraph::SIZE - 1), state.1, false)
    }
}

impl<'a> Previous<'a, Monograph<'a>> for Choonpu<'a> {
    open spec fn entered(state: Monograph<'a>) -> Stage {
        Stage::Choonpu(suffix(state.0@, monograph::SIZE - 1), state.1, false)
    }

    fn prev(state: Monograph<'a>) -> (reached: Self) {
        Choonpu(util::utf8_word_slice_from(state.0, monograph::SIZE - 1), state.1, false)
    }
}

impl<'a> Previous<'a, Nasal<'a>> for Choonpu<'a> {
    open spec fn entered(state: Nasal<'a>) -> Stage {
        Stage::Choonpu(state.0@, state.1, false)
    }

    fn prev(state: Nasal<'a>) -> (reached: Self) {
        Choonpu(state.0, state.1, false)
    }
}

impl<'a> From<Choonpu<'a>> for NextState<'a> {
    fn from(state: Choonpu<'a>) -> (next: Self) {
        Some(State::Choonpu(state))
    }
}

impl<'a> vstd::std_specs::convert::FromSpecImpl<Choonpu<'a>> for NextState<'a> {
    open spec fn obeys_from_spec() -> bool {
        true
    }

    open spec fn from_spec(state: Choonpu<'a>) -> Self {
        Some(State::Choonpu(state))
    }
}

} // verus!
