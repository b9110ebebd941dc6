//! The state that looks for a syllabogram of three characters.

use vstd::prelude::*;
use crate::machine::{NextState, Next, Previous, Stage, State};
use crate::states::{Choonpu, KanaToggle, Sukuon, Syllabogram, SHORT_SIZE};
use crate::table::KanaTable;
use crate::util;

verus! {

/// The number of characters in the window.
pub const SIZE: usize = 3;

impl<'a> Next<'a> for Syllabogram<'a, SIZE> {
    /// This state as plain values.
    open spec fn stage(self) -> Stage {
        Stage::Medium(self.0@, self.1)
    }

    /// Looks the first three characters up. A word that is too short or has no
    /// syllabogram there goes on to the window of two.
    fn next(self, table: &KanaTable<'a>) -> (taken: (Option<&'a str>, NextState<'a>)) {
        let word = self.0;
        if util::utf8_word_count(word) < SIZE {
            return (None, Syllabogram::<'a, SHORT_SIZE>::prev(self).into());
        }
        let query = util::utf8_word_slice_until(word, SIZE);
        match table.get(query) {
            None => (None, Syllabogram::<'a, SHORT_SIZE>::prev(self).into()),
            Some(s) => (
                Some(s),
                if table.graphemes.choonpu.is_some() {
                    Choonpu::prev(self).into()
                } else {
                    KanaToggle::prev(self).into()
                },
            ),
        }
    }
}

impl<'a> Previous<'a, Sukuon<'a>> for Syllabogram<'a, SIZE> {
    open spec fn entered(state: Sukuon<'a>) -> Stage {
        Stage::Medium(state.0@, state.1)
    }

    fn prev(state: Sukuon<'a>) -> (reached: Self) {
        Syllabogram(state.0, state.1)
    }
}

impl<'a> From<Syllabogram<'a, SIZE>> for NextState<'a> {
    fn from(state: Syllabogram<'a, SIZE>) -> (next: Self) {
        Some(State::Medium(state))
    }
}

impl<'a> vstd::std_specs::convert::FromSpecImpl<Syllabogram<'a, SIZE>> for NextState<'a> {
    open spec fn obeys_from_spec() -> bool {
        true
    }

    open spec fn from_spec(state: Syllabogram<'a, SIZE>) -> Self {
        Some(State::Medium(state))
    }
}

} // verus!
