//! The state that looks for the character that toggles the kana.

use vstd::prelude::*;
use crate::machine::{NextState, Next, Previous, Stage, State};
use crate::states::toggle::{Toggle, SIZE};
use crate::states::{
    Choonpu, Digraph, Monograph, Nasal, Sukuon, Syllabogram, CHOONPU_SIZE, LONG_SIZE,
    MEDIUM_SIZE, SHORT_SIZE, SUKUON_SIZE, TINY_SIZE,
};
use crate::states::{digraph, monograph, nasal};
use crate::table::KanaTable;
use crate::text::starts_with;
use crate::utf8::suffix;
use crate::util;

verus! {

/// The type parameter of the toggle that toggles the kana.
pub const TYPE: usize = 1;

/// The toggle between hiragana and katakana.
pub type KanaToggle<'a> = Toggle<'a, TYPE>;

impl<'a> Next<'a> for Toggle<'a, TYPE> {
    /// This state as plain values.
    open spec fn stage(self) -> Stage {
        Stage::KanaToggle(self.0@, self.1, self.2)
    }

    /// Reads the toggle character where the word begins with it, and says so in
    /// the state it gives; any other word goes on to the window of four.
    fn next(self, table: &KanaTable<'a>) -> (taken: (Option<&'a str>, NextState<'a>)) {
        let word = self.0;
        let found = match self.1 {
            Some(c) => starts_with(word, c),
            None => false,
        };
        if found {
            (None, Toggle::<'a, TYPE>::prev(self).into())
        } else {
            (None, Syllabogram::<'a, LONG_SIZE>::prev(self).into())
        }
    }
}

impl<'a> Previous<'a, Toggle<'a, TYPE>> for Toggle<'a, TYPE> {
    open spec fn entered(state: Toggle<'a, TYPE>) -> Stage {
        Stage::KanaToggle(suffix(state.0@, SIZE as int), state.1, true)
    }

    fn prev(state: Toggle<'a, TYPE>) -> (reached: Self) {
        Toggle(util::utf8_word_slice_from(state.0, SIZE), state.1, true)
    }
}

impl<'a> Previous<'a, Syllabogram<'a, LONG_SIZE>> for Toggle<'a, TYPE> {
    open spec fn entered(state: Syllabogram<'a, LONG_SIZE>) -> Stage {
        Stage::KanaToggle(suffix(state.0@, LONG_SIZE as int), state.1, false)
    }

    fn prev(state: Syllabogram<'a, LONG_SIZE>) -> (reached: Self) {
        Toggle(util::utf8_word_slice_from(state.0, LONG_SIZE), state.1, false)
    }
}

impl<'a> Previous<'a, Syllabogram<'a, MEDIUM_SIZE>> for Toggle<'a, TYPE> {
    open spec fn entered(state: Syllabogram<'a, MEDIUM_SIZE>) -> Stage {
        Stage::KanaToggle(suffix(state.0@, MEDIUM_SIZE as int), state.1, false)
    }

    fn prev(state: Syllabogram<'a, MEDIUM_SIZE>) -> (reached: Self) {
        Toggle(util::utf8_word_slice_from(state.0, MEDIUM_SIZE), state.1, false)
    }
}

impl<'a> Previous<'a, Syllabogram<'a, SHORT_SIZE>> for Toggle<'a, TYPE> {
    open spec fn entered(state: Syllabogram<'a, SHORT_SIZE>) -> Stage {
        Stage::KanaToggle(suffix(state.0@, SHORT_SIZE as int), state.1, false)
    }

    fn prev(state: Syllabogram<'a, SHORT_SIZE>) -> (reached: Self) {
        Toggle(util::utf8_word_slice_from(state.0, SHORT_SIZE), state.1, false)
    }
}

impl<'a> Previous<'a, Syllabogram<'a, TINY_SIZE>> for Toggle<'a, TYPE> {
    open spec fn entered(state: Syllabogram<'a, TINY_SIZE>) -> Stage {
        Stage::KanaToggle(suffix(state.0@, TINY_SIZE as int), state.1, false)
    }

    fn prev(state: Syllabogram<'a, TINY_SIZE>) -> (reached: Self) {
        Toggle(util::utf8_word_slice_from(state.0, TINY_SIZE), state.1, false)
    }
}

impl<'a> Previous<'a, Digraph<'a>> for Toggle<'a, TYPE> {
    open spec fn entered(state: Digraph<'a>) -> Stage {
        Stage::KanaToggle(suffix(state.0@, digraph::SIZE as int), state.1, false)
    }

    fn prev(state: Digraph<'a>) -> (reached: Self) {
        Toggle(util::utf8_word_slice_from(state.0, digraph::SIZE), state.1, false)
    }
}

impl<'a> Previous<'a, Monograph<'a>> for Toggle<'a, TYPE> {
    open spec fn entered(state: Monograph<'a>) -> Stage {
        Stage::KanaToggle(suffix(state.0@, monograph::SIZE as int), state.1, false)
    }

    fn prev(state: Monograph<'a>) -> (reached: Self) {
        Toggle(util::utf8_word_slice_from(state.0, monograph::SIZE), state.1, false)
    }
}

impl<'a> Previous<'a, Nasal<'a>> for Toggle<'a, TYPE> {
    open spec fn entered(state: Nasal<'a>) -> Stage {
        Stage::KanaToggle(suffix(state.0@, nasal::SIZE as int), state.1, false)
    }

    fn prev(state: Nasal<'a>) -> (reached: Self) {
        Toggle(util::utf8_word_slice_from(state.0, nasal::SIZE), state.1, false)
    }
}

impl<'a> Previous<'a, Sukuon<'a>> for Toggle<'a, TYPE> {
    open spec fn entered(state: Sukuon<'a>) -> Stage {
        Stage::KanaToggle(suffix(state.0@, SUKUON_SIZE - 1), state.1, false)
    }

    fn prev(state: Sukuon<'a>) -> (reached: Self) {
        Toggle(util::utf8_word_slice_from(state.0, SUKUON_SIZE - 1), state.1, false)
    }
}

impl<'a> Previous<'a, Choonpu<'a>> for Toggle<'a, TYPE> {
    open spec fn entered(state: Choonpu<'a>) -> Stage {
        Stage::KanaToggle(suffix(state.0@, CHOONPU_SIZE - 1), state.1, false)
    }

    fn prev(state: Choonpu<'a>) -> (reached: Self) {
        Toggle(util::utf8_word_slice_from(state.0, CHOONPU_SIZE - 1), state.1, false)
    }
}

impl<'a> From<Toggle<'a, TYPE>> for NextState<'a> {
    fn from(state: Toggle<'a, TYPE>) -> (next: Self) {
        Some(State::KanaToggle(state))
    }
}

impl<'a> vstd::std_specs::convert::FromSpecImpl<Toggle<'a, TYPE>> for NextState<'a> {
    open spec fn obeys_from_spec() -> bool {
        true
    }

    open spec fn from_spec(state: Toggle<'a, TYPE>) -> Self {
        Some(State::KanaToggle(state))
    }
}

} // verus!
