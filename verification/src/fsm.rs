//! The state machine that reads romaji syllable by syllable.
//!
//! A step takes a state and what is left of the text, and gives the fragment
//! it wrote, what is then left, and the state to go on with. The machine tries
//! the widest window first, four characters, then ever narrower ones; the first
//! window that a table knows wins, and a character that nothing knows is
//! written as it stands.

use vstd::prelude::*;
use vstd::string::*;
use crate::config::CharFeature;
use crate::glyphs::punctuation::MARKS;
use crate::input::{Cursor, Input};
use crate::kana::{chouonpu_glyph, small_vowel_glyph, sokuon_glyph, sokuon_mark, syllable_glyph};
use crate::table::{entries_of, glyph_of, lookup};
use crate::text::{begins_with, begins_with_some, lowercase_of, same_text, starts_with};
use crate::utf8::{count_chars, prefix, slice_from, slice_to, suffix};

verus! {

/// The states of the machine.
#[derive(Clone, Copy, Debug, PartialEq, Eq)]
pub enum State<'a> {
    /// Between two syllables. Here the machine stops once the text is read.
    Init,
    /// Looks for the character that opens raw text.
    RawToggle,
    /// Looks for the character that changes the kana.
    KanaToggle,
    /// Picks the widest window that what is left can fill.
    SizeRouter,
    /// Looks for a syllable of four characters.
    Long,
    /// Looks for a syllable of three characters.
    Medium,
    /// Looks for a syllable of two characters.
    Short,
    /// Looks for a syllable of one character.
    Tiny,
    /// Looks for a doubled consonant.
    Sokuon,
    /// Looks for the character that writes a sokuon by itself.
    VirtualSokuon,
    /// Looks for the character that makes the next vowel small.
    SmallVowel,
    /// Looks for a doubled vowel behind the syllable just written.
    Chouonpu,
    /// Inside raw text, which the given character closes.
    RawText(char),
    /// Looks for a punctuation mark in a window of the given size; the state
    /// is where to go on without one.
    Punctuation(usize, &'a State<'a>),
    /// Writes one character as it stands.
    Fallback,
}

/// One step: the fragment written, what is left, and the next state.
pub type Step<'a> = Option<(Seq<char>, Cursor, State<'a>)>;

/// The single quote.
pub open spec fn single_quote() -> Seq<char> {
    seq!['\'']
}

/// The double quote.
pub open spec fn double_quote() -> Seq<char> {
    seq!['"']
}

/// The number of characters in the window that a state looks at.
pub open spec fn window(state: State) -> int {
    match state {
        State::SizeRouter => 0,
        State::Init | State::RawToggle | State::KanaToggle | State::RawText(_) | State::Tiny
        | State::VirtualSokuon | State::Fallback => 1,
        State::Short | State::Sokuon | State::SmallVowel | State::Chouonpu => 2,
        State::Medium => 3,
        State::Long => 4,
        State::Punctuation(size, _) => size as int,
    }
}

/// A step that writes nothing.
pub open spec fn pass<'a>(cursor: Cursor, state: State<'a>) -> Step<'a> {
    Some((Seq::empty(), cursor, state))
}

/// Where a state that looks for a syllable goes when it finds none: to the
/// next narrower window, by way of the punctuation marks where they are
/// parsed. Behind the narrowest window comes the virtual sokuon, where it is
/// configured, and else the fallback.
pub open spec fn narrower<'a>(state: State<'a>, cursor: Cursor) -> State<'a> {
    let marks = cursor.quotes is Some;
    match state {
        State::Long => if marks {
            State::Punctuation(4, &State::Medium)
        } else {
            State::Medium
        },
        State::Medium => if marks {
            State::Punctuation(3, &State::Sokuon)
        } else {
            State::Sokuon
        },
        State::Short => if marks {
            State::Punctuation(2, &State::Tiny)
        } else {
            State::Tiny
        },
        _ => if cursor.special_chars.virtual_stop is Some {
            if marks {
                State::Punctuation(1, &State::VirtualSokuon)
            } else {
                State::VirtualSokuon
            }
        } else {
            if marks {
                State::Punctuation(1, &State::Fallback)
            } else {
                State::Fallback
            }
        },
    }
}

/// `Long`, `Medium`, `Short` and `Tiny`: a syllable that fills the window is
/// written, and all of it but its last character is read; that one stays for
/// the prolongation that may follow.
pub open spec fn syllable_step<'a>(state: State<'a>, cursor: Cursor) -> Step<'a> {
    let size = window(state);
    match syllable_glyph(cursor.kana, lowercase_of(prefix(cursor.romaji, size))) {
        Some(glyph) => Some((glyph, cursor.at(suffix(cursor.romaji, size - 1)), State::Chouonpu)),
        None => pass(cursor, narrower(state, cursor)),
    }
}

/// `RawToggle`: the configured character opens raw text.
pub open spec fn raw_toggle_step<'a>(cursor: Cursor) -> Step<'a> {
    match cursor.special_chars.raw_text_toggle {
        Some(toggle) if begins_with(cursor.romaji, toggle) => pass(
            cursor.at(suffix(cursor.romaji, 1)),
            State::RawText(toggle),
        ),
        _ => pass(cursor, State::KanaToggle),
    }
}

/// `RawText`: the toggle closes raw text; any other character is written as
/// it stands.
pub open spec fn raw_text_step<'a>(toggle: char, cursor: Cursor) -> Step<'a> {
    let rest = suffix(cursor.romaji, 1);
    if begins_with(cursor.romaji, toggle) {
        pass(cursor.at(rest), State::RawToggle)
    } else {
        Some(
            (
                prefix(cursor.romaji, 1),
                cursor.at(rest),
                if rest.len() == 0 {
                    State::Init
                } else {
                    State::RawText(toggle)
                },
            ),
        )
    }
}

/// `KanaToggle`: the configured character changes the kana.
pub open spec fn kana_toggle_step<'a>(cursor: Cursor) -> Step<'a> {
    if begins_with_some(cursor.romaji, cursor.special_chars.kana_toggle) {
        pass(cursor.toggled().at(suffix(cursor.romaji, 1)), State::Init)
    } else {
        pass(cursor, State::SizeRouter)
    }
}

/// `SizeRouter`: the widest window that what is left can fill.
pub open spec fn size_router_step<'a>(cursor: Cursor) -> Step<'a> {
    let left = cursor.romaji.len();
    pass(
        cursor,
        if left >= 4 {
            State::Long
        } else if left == 3 {
            State::Medium
        } else if left == 2 {
            State::Sokuon
        } else if left == 1 {
            State::Tiny
        } else {
            State::Init
        },
    )
}

/// `Sokuon`: the first of two equal consonants is written as a sokuon, and
/// the second begins the next syllable.
pub open spec fn sokuon_step<'a>(cursor: Cursor) -> Step<'a> {
    match sokuon_glyph(cursor.kana, lowercase_of(prefix(cursor.romaji, 2))) {
        Some(glyph) => Some((glyph, cursor.at(suffix(cursor.romaji, 1)), State::Init)),
        None => pass(
            cursor,
            if cursor.special_chars.small_vowel is Some {
                State::SmallVowel
            } else {
                State::Short
            },
        ),
    }
}

/// `SmallVowel`: behind the configured character a vowel is written in its
/// small form.
pub open spec fn small_vowel_step<'a>(cursor: Cursor) -> Step<'a> {
    let selection = prefix(cursor.romaji, 2);
    if begins_with_some(selection, cursor.special_chars.small_vowel) {
        match small_vowel_glyph(cursor.kana, lowercase_of(suffix(selection, 1))) {
            Some(glyph) => Some((glyph, cursor.at(suffix(cursor.romaji, 1)), State::Chouonpu)),
            None => pass(cursor, State::Short),
        }
    } else {
        pass(cursor, State::Short)
    }
}

/// `Chouonpu`: the cursor stands on the last character of the syllable just
/// written. That character is read. Where the reset character follows it, that
/// is read too and nothing is written; where the same vowel follows it, a
/// chouonpu is written and the machine looks for one more.
pub open spec fn chouonpu_step<'a>(cursor: Cursor) -> Step<'a> {
    let rest = suffix(cursor.romaji, 1);
    if cursor.romaji.len() == 0 {
        pass(cursor, State::Init)
    } else if begins_with_some(rest, cursor.special_chars.reset_prolongation) {
        pass(cursor.at(suffix(cursor.romaji, 2)), State::Init)
    } else {
        match chouonpu_glyph(cursor.kana, lowercase_of(prefix(cursor.romaji, 2))) {
            Some(glyph) => Some((glyph, cursor.at(rest), State::Chouonpu)),
            None => pass(cursor.at(rest), State::Init),
        }
    }
}

/// `Punctuation`: a quote is written in the form that its kind writes next; any
/// other mark that fills the window is written in its full-width form. Without
/// a mark, or where punctuation is not parsed, the machine goes on with `next`.
pub open spec fn punctuation_step<'a>(size: usize, next: State<'a>, cursor: Cursor) -> Step<'a> {
    let selection = prefix(cursor.romaji, size as int);
    match cursor.quotes {
        None => pass(cursor, next),
        Some(quotes) => if selection == single_quote() {
            Some(
                (
                    quotes.single,
                    Cursor {
                        romaji: suffix(cursor.romaji, 1),
                        quotes: Some(quotes.flip_single()),
                        ..cursor
                    },
                    State::Init,
                ),
            )
        } else if selection == double_quote() {
            Some(
                (
                    quotes.double,
                    Cursor {
                        romaji: suffix(cursor.romaji, 1),
                        quotes: Some(quotes.flip_double()),
                        ..cursor
                    },
                    State::Init,
                ),
            )
        } else {
            match glyph_of(entries_of(MARKS@), selection) {
                Some(glyph) => Some(
                    (glyph, cursor.at(suffix(cursor.romaji, size as int)), State::Init),
                ),
                None => pass(cursor, next),
            }
        },
    }
}

/// `VirtualSokuon`: the configured character is written as a sokuon.
pub open spec fn virtual_sokuon_step<'a>(cursor: Cursor) -> Step<'a> {
    if begins_with_some(cursor.romaji, cursor.special_chars.virtual_stop) {
        Some((sokuon_mark(cursor.kana), cursor.at(suffix(cursor.romaji, 1)), State::Init))
    } else {
        pass(cursor, State::Fallback)
    }
}

/// `Fallback`: one character is written as it stands.
pub open spec fn fallback_step<'a>(cursor: Cursor) -> Step<'a> {
    Some((prefix(cursor.romaji, 1), cursor.at(suffix(cursor.romaji, 1)), State::Init))
}

/// The step that the machine takes in `state` at `cursor`. There is none in
/// `Init` once the text is read, and there only.
pub open spec fn step<'a>(state: State<'a>, cursor: Cursor) -> Step<'a> {
    match state {
        State::Init => if cursor.romaji.len() == 0 {
            None
        } else {
            pass(cursor, State::RawToggle)
        },
        State::RawToggle => raw_toggle_step(cursor),
        State::RawText(toggle) => raw_text_step(toggle, cursor),
        State::KanaToggle => kana_toggle_step(cursor),
        State::SizeRouter => size_router_step(cursor),
        State::Long | State::Medium | State::Short | State::Tiny => syllable_step(state, cursor),
        State::Sokuon => sokuon_step(cursor),
        State::SmallVowel => small_vowel_step(cursor),
        State::Chouonpu => chouonpu_step(cursor),
        State::Punctuation(size, next) => punctuation_step(size, *next, cursor),
        State::VirtualSokuon => virtual_sokuon_step(cursor),
        State::Fallback => fallback_step(cursor),
    }
}

impl<'a> State<'a> {
    /// The number of characters in the window that this state looks at.
    pub fn get_size(&self) -> (size: usize)
        ensures
            size == window(*self),
    {
        match self {
            State::SizeRouter => 0,
            State::Init
            | State::RawToggle
            | State::KanaToggle
            | State::RawText(_)
            | State::Tiny
            | State::VirtualSokuon
            | State::Fallback => 1,
            State::Short | State::Sokuon | State::SmallVowel | State::Chouonpu => 2,
            State::Medium => 3,
            State::Long => 4,
            State::Punctuation(size, _) => *size,
        }
    }

    /// Where this state, one that looks for a syllable, goes on without one.
    fn get_narrower(&self, input: &Input<'a>) -> (state: State<'a>)
        ensures
            state == narrower(*self, input@),
    {
        let marks = input.punctuation.is_some();
        match self {
            State::Long => if marks {
                State::Punctuation(4, &State::Medium)
            } else {
                State::Medium
            },
            State::Medium => if marks {
                State::Punctuation(3, &State::Sokuon)
            } else {
                State::Sokuon
            },
            State::Short => if marks {
                State::Punctuation(2, &State::Tiny)
            } else {
                State::Tiny
            },
            _ => if input.special_chars.get(&CharFeature::VirtualStop).is_some() {
                if marks {
                    State::Punctuation(1, &State::VirtualSokuon)
                } else {
                    State::VirtualSokuon
                }
            } else {
                if marks {
                    State::Punctuation(1, &State::Fallback)
                } else {
                    State::Fallback
                }
            },
        }
    }

    /// Takes one step from this state. `None` says that the text is read.
    pub fn next(self, input: Input<'a>) -> (taken: Option<(&'a str, Input<'a>, State<'a>)>)
        ensures
            match taken {
                Some((fragment, left, state)) => step(self, input@) == Some(
                    (fragment@, left@, state),
                ),
                None => step(self, input@) is None,
            },
            taken is None <==> self is Init && input.romaji@.len() == 0,
    {
        let mut input = input;
        let size = self.get_size();
        let romaji = input.romaji;
        proof {
            reveal_strlit("");
            assert(""@ =~= Seq::<char>::empty());
        }
        match self {
            State::Init => if romaji.is_empty() {
                None
            } else {
                Some(("", input, State::RawToggle))
            },
            State::RawToggle => match input.special_chars.get(&CharFeature::RawTextToggle) {
                Some(toggle) if starts_with(romaji, toggle) => {
                    input.romaji = slice_from(romaji, size);
                    Some(("", input, State::RawText(toggle)))
                },
                _ => Some(("", input, State::KanaToggle)),
            },
            State::RawText(toggle) => {
                let rest = slice_from(romaji, size);
                input.romaji = rest;
                if starts_with(romaji, toggle) {
                    Some(("", input, State::RawToggle))
                } else {
                    Some(
                        (
                            slice_to(romaji, size),
                            input,
                            if rest.is_empty() {
                                State::Init
                            } else {
                                State::RawText(toggle)
                            },
                        ),
                    )
                }
            },
            State::KanaToggle => match input.special_chars.get(&CharFeature::KanaToggle) {
                Some(toggle) if starts_with(romaji, toggle) => {
                    input.kanas.toggle();
                    input.romaji = slice_from(romaji, size);
                    Some(("", input, State::Init))
                },
                _ => Some(("", input, State::SizeRouter)),
            },
            State::SizeRouter => {
                let left = count_chars(romaji);
                let state = if left >= 4 {
                    State::Long
                } else if left == 3 {
                    State::Medium
                } else if left == 2 {
                    State::Sokuon
                } else if left == 1 {
                    State::Tiny
                } else {
                    State::Init
                };
                Some(("", input, state))
            },
            State::Long | State::Medium | State::Short | State::Tiny => {
                let selection = slice_to(romaji, size);
                match input.kanas.get_current().get(selection) {
                    Some(output) => {
                        input.romaji = slice_from(romaji, size - 1);
                        Some((output, input, State::Chouonpu))
                    },
                    None => {
                        let state = self.get_narrower(&input);
                        Some(("", input, state))
                    },
                }
            },
            State::Sokuon => {
                let selection = slice_to(romaji, size);
                match input.kanas.get_current().sokuon(selection) {
                    Some(output) => {
                        input.romaji = slice_from(romaji, size - 1);
                        Some((output, input, State::Init))
                    },
                    None => {
                        let state = if input.special_chars.get(&CharFeature::SmallVowel).is_some() {
                            State::SmallVowel
                        } else {
                            State::Short
                        };
                        Some(("", input, state))
                    },
                }
            },
            State::SmallVowel => {
                let selection = slice_to(romaji, size);
                match input.special_chars.get(&CharFeature::SmallVowel) {
                    Some(trigger) if starts_with(selection, trigger) => {
                        match input.kanas.get_current().small_vowel(slice_from(selection, 1)) {
                            Some(vowel) => {
                                input.romaji = slice_from(romaji, size - 1);
                                Some((vowel, input, State::Chouonpu))
                            },
                            None => Some(("", input, State::Short)),
                        }
                    },
                    _ => Some(("", input, State::Short)),
                }
            },
            State::Chouonpu => {
                if romaji.is_empty() {
                    return Some(("", input, State::Init));
                }
                let rest = slice_from(romaji, size - 1);
                match input.special_chars.get(&CharFeature::ResetProlongation) {
                    Some(reset) if starts_with(rest, reset) => {
                        input.romaji = slice_from(romaji, size);
                        Some(("", input, State::Init))
                    },
                    _ => {
                        let selection = slice_to(romaji, size);
                        input.romaji = rest;
                        match input.kanas.get_current().chouonpu(selection) {
                            Some(output) => Some((output, input, State::Chouonpu)),
                            None => Some(("", input, State::Init)),
                        }
                    },
                }
            },
            State::Punctuation(size, next) => {
                let selection = slice_to(romaji, size);
                proof {
                    reveal_strlit("'");
                    reveal_strlit("\"");
                    assert("'"@ =~= single_quote());
                    assert("\""@ =~= double_quote());
                }
                match input.punctuation {
                    None => Some(("", input, *next)),
                    Some(mut punctuation) => {
                        if same_text(selection, "'") {
                            let output: &'static str = *punctuation.single_quotes.get_current();
                            punctuation.single_quotes.toggle();
                            input.punctuation = Some(punctuation);
                            input.romaji = slice_from(romaji, 1);
                            Some((output, input, State::Init))
                        } else if same_text(selection, "\"") {
                            let output: &'static str = *punctuation.double_quotes.get_current();
                            punctuation.double_quotes.toggle();
                            input.punctuation = Some(punctuation);
                            input.romaji = slice_from(romaji, 1);
                            Some((output, input, State::Init))
                        } else {
                            input.punctuation = Some(punctuation);
                            match lookup(MARKS.as_slice(), selection) {
                                Some(output) => {
                                    input.romaji = slice_from(romaji, size);
                                    Some((output, input, State::Init))
                                },
                                None => Some(("", input, *next)),
                            }
                        }
                    },
                }
            },
            State::VirtualSokuon => match input.special_chars.get(&CharFeature::VirtualStop) {
                Some(trigger) if starts_with(romaji, trigger) => {
                    let output = input.kanas.get_current().sokuon_literal();
                    input.romaji = slice_from(romaji, size);
                    Some((output, input, State::Init))
                },
                _ => Some(("", input, State::Fallback)),
            },
            State::Fallback => {
                let output = slice_to(romaji, size);
                input.romaji = slice_from(romaji, size);
                Some((output, input, State::Init))
            },
        }
    }
}

/// The machine stops in `Init` at the end of the text, and nowhere else.
pub proof fn law_stops_at_the_end_only(state: State, cursor: Cursor)
    ensures
        step(state, cursor) is None <==> state is Init && cursor.romaji.len() == 0,
{
}

/// A step reads from the start of what is left and changes nothing else but
/// the switches: the text behind it is what was left, less the characters
/// read, and the configured characters stay.
pub proof fn law_cursor_only_shrinks(state: State, cursor: Cursor)
    ensures
        match step(state, cursor) {
            Some((_, left, _)) => {
                &&& left.romaji.len() <= cursor.romaji.len()
                &&& left.romaji == cursor.romaji.skip(cursor.romaji.len() - left.romaji.len())
                &&& left.special_chars == cursor.special_chars
                &&& left.quotes is Some == cursor.quotes is Some
                &&& (left.kana == cursor.kana && left.idle_kana == cursor.idle_kana) || (left.kana
                    == cursor.idle_kana && left.idle_kana == cursor.kana)
            },
            None => true,
        },
{
    match step(state, cursor) {
        Some((_, left, _)) => {
            assert(left.romaji =~= cursor.romaji.skip(cursor.romaji.len() - left.romaji.len()));
        },
        None => {},
    }
}

/// Where punctuation is parsed, a single quote in a window of one character is
/// written in the form that is next for single quotes, and only the single
/// quotes change to their other form.
pub proof fn law_single_quote_step(next: State, cursor: Cursor)
    requires
        cursor.quotes is Some,
        prefix(cursor.romaji, 1) == single_quote(),
    ensures
        step(State::Punctuation(1, &next), cursor) == Some(
            (
                cursor.quotes->0.single,
                Cursor {
                    romaji: suffix(cursor.romaji, 1),
                    quotes: Some(cursor.quotes->0.flip_single()),
                    ..cursor
                },
                State::Init,
            ),
        ),
{
}

/// The same of a double quote.
pub proof fn law_double_quote_step(next: State, cursor: Cursor)
    requires
        cursor.quotes is Some,
        prefix(cursor.romaji, 1) == double_quote(),
    ensures
        step(State::Punctuation(1, &next), cursor) == Some(
            (
                cursor.quotes->0.double,
                Cursor {
                    romaji: suffix(cursor.romaji, 1),
                    quotes: Some(cursor.quotes->0.flip_double()),
                    ..cursor
                },
                State::Init,
            ),
        ),
{
    assert(single_quote()[0] != double_quote()[0]);
}

} // verus!
