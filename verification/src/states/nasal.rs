//! The state that writes a single character, such as the nasal `n`: as its
//! syllabogram, or as it stands.

use vstd::prelude::*;
use crate::machine::{NextState, Next, Previous, Stage, State};
use crate::states::{Choonpu, KanaToggle, Monograph, Sukuon, CHOONPU_SIZE};
use crate::table::KanaTable;
use crate::utf8::suffix;
use crate::util;

verus! {

/// The number of characters in the window.
pub const SIZE: usize = 1;

/// Writes the first character of the word. It holds the word that is left and
/// the character that toggles the kana.
#[derive(Debug, PartialEq)]
pub struct Nasal<'a>(pub &'a str, pub Option<char>);

impl<'a> Next<'a> for Nasal<'a> {
    /// This state as plain values.
    open spec fn stage(self) -> Stage {
        Stage::Nasal(self.0@, self.1)
    }

    /// Writes the first character: as its syllabogram, or as it stands. At the
    /// end of the word there is no state to go on with.
    fn next(self, table: &KanaTable<'a>) -> (taken: (Option<&'a str>, NextState<'a>)) {
        let word = self.0;
        if util::utf8_word_count(word) < 1 {
            return (None, None);
        }
        let query = util::utf8_word_slice_until(word, SIZE);
        match table.get(query) {
            Some(s) => (
                Some(s),
                if table.graphemes.choonpu.is_some() {
                    Choonpu::prev(self).into()
                } else {
                    KanaToggle::prev(self).into()
                },
            ),
            None => (Some(query), KanaToggle::prev(self).into()),
        }
    }
}

impl<'a> Previous<'a, Monograph<'a>> for Nasal<'a> {
    open spec fn entered(state: Monograph<'a>) -> Stage {
        Stage::Nasal(state.0@, state.1)
    }

    fn prev(state: Monograph<'a>) -> (reached: Self) {
        Nasal(state.0, state.1)
    }
}

impl<'a> Previous<'a, Sukuon<'a>> for Nasal<'a> {
    open spec fn entered(state: Sukuon<'a>) -> Stage {
        Stage::Nasal(state.0@, state.1)
    }

    fn prev(state: Sukuon<'a>) -> (reached: Self) {
        Nasal(state.0, state.1)
    }
}

impl<'a> Previous<'a, Choonpu<'a>> for Nasal<'a> {
    open spec fn entered(state: Choonpu<'a>) -> Stage {
        Stage::Nasal(suffix(state.0@, CHOONPU_SIZE - 1), state.1)
    }

    fn prev(state: Choonpu<'a>) -> (reached: Self) {
        Nasal(util::utf8_word_slice_from(state.0, CHOONPU_SIZE - 1), state.1)
    }
}

impl<'a> From<Nasal<'a>> for NextState<'a> {
    fn from(state: Nasal<'a>) -> (next: Self) {
        Some(State::Nasal(state))
    }
}

impl<'a> vstd::std_specs::convert::FromSpecImpl<Nasal<'a>> for NextState<'a> {
    open spec fn obeys_from_spec() -> bool {
        true
    }

    open spec fn from_spec(state: Nasal<'a>) -> Self {
        Some(State::Nasal(state))
    }
}

} // verus!
