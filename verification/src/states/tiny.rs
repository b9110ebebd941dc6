//! The state that writes a single character: as its syllabogram, or as it stands.

use vstd::prelude::*;
use crate::machine::{NextState, Next, Previous, Stage, State};
use crate::states::{Choonpu, KanaToggle, Sukuon, Syllabogram, CHOONPU_SIZE, SHORT_SIZE};
use crate::table::KanaTable;
use crate::utf8::suffix;
use crate::util;

verus! {

/// The number of characters in the window.
pub const SIZE: usize = 1;

impl<'a> Next<'a> for Syllabogram<'a, SIZE> {
    /// This state as plain values.
    open spec fn stage(self) -> Stage {
        Stage::Tiny(self.0@, self.1)
    }

    /// Writes the first character: as its syllabogram, or as it stands. At the
    /// end of the word there is no state to go on with.
    fn next(self, table: &KanaTable<'a>) -> (taken: (Option<&'a str>, NextState<'a>)) {
        let word = self.0;
        if util::utf8_word_count(word) < 1 {
            return (None, None);
        }
        let query = util::utf8_word_slice_until(word, SIZE);
        match table.get(query) {
            Some(s) => (
                Some(s),
                if table.graphemes.choonpu.is_some() {
                    Choonpu::prev(self).into()
                } else {
                    KanaToggle::prev(self).into()
                },
            ),
            None => (Some(query), KanaToggle::prev(self).into()),
        }
    }
}

impl<'a> Previous<'a, Syllabogram<'a, SHORT_SIZE>> for Syllabogram<'a, SIZE> {
    open spec fn entered(state: Syllabogram<'a, SHORT_SIZE>) -> Stage {
        Stage::Tiny(state.0@, state.1)
    }

    fn prev(state: Syllabogram<'a, SHORT_SIZE>) -> (reached: Self) {
        Syllabogram(state.0, state.1)
    }
}

impl<'a> Previous<'a, Sukuon<'a>> for Syllabogram<'a, SIZE> {
    open spec fn entered(state: Sukuon<'a>) -> Stage {
        Stage::Tiny(state.0@, state.1)
    }

    fn prev(state: Sukuon<'a>) -> (reached: Self) {
        Syllabogram(state.0, state.1)
    }
}

impl<'a> Previous<'a, Choonpu<'a>> for Syllabogram<'a, SIZE> {
    open spec fn entered(state: Choonpu<'a>) -> Stage {
        Stage::Tiny(suffix(state.0@, CHOONPU_SIZE - 1), state.1)
    }

    fn prev(state: Choonpu<'a>) -> (reached: Self) {
        Syllabogram(util::utf8_word_slice_from(state.0, CHOONPU_SIZE - 1), state.1)
    }
}

impl<'a> From<Syllabogram<'a, SIZE>> for NextState<'a> {
    fn from(state: Syllabogram<'a, SIZE>) -> (next: Self) {
        Some(State::Tiny(state))
    }
}

impl<'a> vstd::std_specs::convert::FromSpecImpl<Syllabogram<'a, SIZE>> for NextState<'a> {
    open spec fn obeys_from_spec() -> bool {
        true
    }

    open spec fn from_spec(state: Syllabogram<'a, SIZE>) -> Self {
        Some(State::Tiny(state))
    }
}

} // verus!
