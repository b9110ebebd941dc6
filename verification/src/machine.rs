//! A state machine over kana tables that the caller supplies.
//!
//! Every state is a type of its own that holds what is left of the word. `Next`
//! takes one step from a state; `Previous` builds a state from the one the
//! machine leaves. `Stage` is a state as plain values, and `advance` is the
//! step that every `next` is held to.

use std::collections::HashMap;
use vstd::prelude::*;
use vstd::string::*;
use crate::states::{
    Choonpu, Digraph, KanaToggle, LongDigraph, Monograph, Nasal, Sukuon, Syllabogram, Toggle,
    LONG_SIZE, MEDIUM_SIZE, SHORT_SIZE, TINY_SIZE,
};
use crate::table::KanaTable;
use crate::text::{
    begins_with_some, contains_char, free_of, lemma_free_of_behind, lemma_free_of_start,
    lowercase_of, text_of,
};
use crate::utf8::{prefix, suffix};

verus! {

/// A state of the machine, as plain values: the word that is left, the
/// character that toggles the kana, and for two states whether the state
/// before them matched.
pub enum Stage {
    KanaToggle(Seq<char>, Option<char>, bool),
    Long(Seq<char>, Option<char>),
    Medium(Seq<char>, Option<char>),
    Short(Seq<char>, Option<char>),
    Tiny(Seq<char>, Option<char>),
    Sukuon(Seq<char>, Option<char>),
    Choonpu(Seq<char>, Option<char>, bool),
    LongDigraph(Seq<char>),
    Digraph(Seq<char>, Option<char>),
    Monograph(Seq<char>, Option<char>),
    Nasal(Seq<char>, Option<char>),
}

/// The states of the machine.
///
/// `Long`, `Medium`, `Short` and `Tiny` look for a syllabogram in a window of
/// four, three, two and one characters. `LongDigraph`, `Digraph`, `Monograph`
/// and `Nasal` do the same under the names of what such a window holds; a
/// machine that is started in one of them runs through these.
#[derive(Debug, PartialEq)]
pub enum State<'a> {
    Long(Syllabogram<'a, LONG_SIZE>),
    Medium(Syllabogram<'a, MEDIUM_SIZE>),
    Short(Syllabogram<'a, SHORT_SIZE>),
    Tiny(Syllabogram<'a, TINY_SIZE>),
    Sukuon(Sukuon<'a>),
    Choonpu(Choonpu<'a>),
    KanaToggle(KanaToggle<'a>),
    LongDigraph(LongDigraph<'a>),
    Digraph(Digraph<'a>),
    Monograph(Monograph<'a>),
    Nasal(Nasal<'a>),
}

/// The state to go on with; `None` where the word is read.
pub type NextState<'a> = Option<State<'a>>;

impl<'a> View for State<'a> {
    type V = Stage;

    open spec fn view(&self) -> Stage {
        match self {
            State::Long(s) => Stage::Long(s.0@, s.1),
            State::Medium(s) => Stage::Medium(s.0@, s.1),
            State::Short(s) => Stage::Short(s.0@, s.1),
            State::Tiny(s) => Stage::Tiny(s.0@, s.1),
            State::Sukuon(s) => Stage::Sukuon(s.0@, s.1),
            State::Choonpu(s) => Stage::Choonpu(s.0@, s.1, s.2),
            State::KanaToggle(s) => Stage::KanaToggle(s.0@, s.1, s.2),
            State::LongDigraph(s) => Stage::LongDigraph(s.0@),
            State::Digraph(s) => Stage::Digraph(s.0@, s.1),
            State::Monograph(s) => Stage::Monograph(s.0@, s.1),
            State::Nasal(s) => Stage::Nasal(s.0@, s.1),
        }
    }
}

/// The stage of the state to go on with.
pub open spec fn stage_of(next: NextState) -> Option<Stage> {
    match next {
        Some(state) => Some(state@),
        None => None,
    }
}

/// The syllabogram that fills a window of `size` characters at the start of
/// `word`: the one that the table has for the window in lower case. A word
/// that cannot fill the window has none.
pub open spec fn syllabogram_at(table: &KanaTable, word: Seq<char>, size: int) -> Option<
    Seq<char>,
> {
    if word.len() < size {
        None
    } else {
        table.syllabogram(lowercase_of(prefix(word, size)))
    }
}

/// Where the machine goes once it has written a syllabogram of `size`
/// characters. A kana with a choonpu keeps the last character for the state
/// that looks for a long vowel.
pub open spec fn after_syllabogram(
    table: &KanaTable,
    word: Seq<char>,
    toggle: Option<char>,
    size: int,
) -> Stage {
    if table.prolongs() {
        Stage::Choonpu(suffix(word, size - 1), toggle, false)
    } else {
        Stage::KanaToggle(suffix(word, size), toggle, false)
    }
}

/// A state that looks for a syllabogram of `size` characters, and goes to
/// `miss` without one.
pub open spec fn syllabogram_step(
    table: &KanaTable,
    word: Seq<char>,
    toggle: Option<char>,
    size: int,
    miss: Stage,
) -> (Option<Seq<char>>, Option<Stage>) {
    match syllabogram_at(table, word, size) {
        Some(glyph) => (Some(glyph), Some(after_syllabogram(table, word, toggle, size))),
        None => (None, Some(miss)),
    }
}

/// The last state of a round: the first character is written as the
/// syllabogram of its lower-case form, or as it stands where it has none. At
/// the end of the word the machine stops. Behind a syllabogram the character
/// stays for the state that looks for a long vowel, where the kana has a
/// choonpu.
pub open spec fn single_step(table: &KanaTable, word: Seq<char>, toggle: Option<char>) -> (
    Option<Seq<char>>,
    Option<Stage>,
) {
    if word.len() < 1 {
        (None, None)
    } else {
        match table.syllabogram(lowercase_of(prefix(word, 1))) {
            Some(glyph) => (
                Some(glyph),
                Some(
                    if table.prolongs() {
                        Stage::Choonpu(word, toggle, false)
                    } else {
                        Stage::KanaToggle(suffix(word, 1), toggle, false)
                    },
                ),
            ),
            None => (
                Some(prefix(word, 1)),
                Some(Stage::KanaToggle(suffix(word, 1), toggle, false)),
            ),
        }
    }
}

/// The state that looks for a doubled consonant: its first letter is written
/// as the sukuon, its second begins the next syllable.
pub open spec fn sukuon_step(table: &KanaTable, word: Seq<char>, toggle: Option<char>) -> (
    Option<Seq<char>>,
    Option<Stage>,
) {
    if word.len() < 2 {
        (None, Some(Stage::Tiny(word, toggle)))
    } else if table.graphemes.sukuon.stands_for(lowercase_of(prefix(word, 2))) {
        (
            Some(table.graphemes.sukuon.graph@),
            Some(Stage::KanaToggle(suffix(word, 1), toggle, false)),
        )
    } else {
        (None, Some(Stage::Medium(word, toggle)))
    }
}

/// The state that looks for a long vowel. The word begins with the last
/// character of the syllable just written, which is read in any case. Where
/// the same vowel follows it, in whatever case, the choonpu is written and the
/// machine looks for one more; that is how a run of vowels gets a mark for
/// each vowel behind the first.
pub open spec fn choonpu_step(table: &KanaTable, word: Seq<char>, toggle: Option<char>) -> (
    Option<Seq<char>>,
    Option<Stage>,
) {
    if word.len() < 2 {
        (None, Some(Stage::Tiny(suffix(word, 1), toggle)))
    } else {
        match table.graphemes.choonpu {
            Some(choonpu) if choonpu.stands_for(lowercase_of(prefix(word, 2))) => (
                Some(choonpu.graph@),
                Some(Stage::Choonpu(suffix(word, 1), toggle, true)),
            ),
            _ => (None, Some(Stage::KanaToggle(suffix(word, 1), toggle, false))),
        }
    }
}

/// The step that the machine takes from `stage`: what it writes, if anything,
/// and the stage it goes on with, if any.
pub open spec fn advance(stage: Stage, table: &KanaTable) -> (Option<Seq<char>>, Option<Stage>) {
    match stage {
        Stage::KanaToggle(word, toggle, _) => if begins_with_some(word, toggle) {
            (None, Some(Stage::KanaToggle(suffix(word, 1), toggle, true)))
        } else {
            (None, Some(Stage::Long(word, toggle)))
        },
        Stage::Long(word, toggle) => syllabogram_step(
            table,
            word,
            toggle,
            4,
            Stage::Sukuon(word, toggle),
        ),
        Stage::Medium(word, toggle) => syllabogram_step(
            table,
            word,
            toggle,
            3,
            Stage::Short(word, toggle),
        ),
        Stage::Short(word, toggle) => syllabogram_step(
            table,
            word,
            toggle,
            2,
            Stage::Tiny(word, toggle),
        ),
        Stage::Tiny(word, toggle) => single_step(table, word, toggle),
        Stage::Sukuon(word, toggle) => sukuon_step(table, word, toggle),
        Stage::Choonpu(word, toggle, _) => choonpu_step(table, word, toggle),
        Stage::LongDigraph(word) => match syllabogram_at(table, word, 4) {
            Some(glyph) => (
                Some(glyph),
                Some(
                    if table.prolongs() {
                        Stage::Choonpu(suffix(word, 3), None, false)
                    } else {
                        Stage::LongDigraph(suffix(word, 4))
                    },
                ),
            ),
            None => (None, Some(Stage::Sukuon(word, None))),
        },
        Stage::Digraph(word, toggle) => syllabogram_step(
            table,
            word,
            toggle,
            3,
            Stage::Monograph(word, toggle),
        ),
        Stage::Monograph(word, toggle) => syllabogram_step(
            table,
            word,
            toggle,
            2,
            Stage::Nasal(word, toggle),
        ),
        Stage::Nasal(word, toggle) => single_step(table, word, toggle),
    }
}

/// A state that the machine can take a step from.
pub trait Next<'a>: Sized {
    /// This state as plain values.
    spec fn stage(self) -> Stage;

    /// Takes one step: what is written, if anything, and the state to go on
    /// with, if any.
    fn next(self, table: &KanaTable<'a>) -> (taken: (Option<&'a str>, NextState<'a>))
        ensures
            text_of(taken.0) == advance(self.stage(), table).0,
            stage_of(taken.1) == advance(self.stage(), table).1,
    ;
}

/// A state that the machine can enter from a state of type `T`.
pub trait Previous<'a, T: Next<'a>>: Next<'a> {
    /// The stage that the machine enters from `state`.
    spec fn entered(state: T) -> Stage;

    /// The state that the machine enters from `state`.
    fn prev(state: T) -> (reached: Self)
        ensures
            reached.stage() == Self::entered(state),
    ;
}

/// The word that a stage has left to read.
pub open spec fn word_of(stage: Stage) -> Seq<char> {
    match stage {
        Stage::KanaToggle(word, _, _) => word,
        Stage::Long(word, _) => word,
        Stage::Medium(word, _) => word,
        Stage::Short(word, _) => word,
        Stage::Tiny(word, _) => word,
        Stage::Sukuon(word, _) => word,
        Stage::Choonpu(word, _, _) => word,
        Stage::LongDigraph(word) => word,
        Stage::Digraph(word, _) => word,
        Stage::Monograph(word, _) => word,
        Stage::Nasal(word, _) => word,
    }
}

/// How far a stage is from reading a character, counted in steps that read
/// nothing.
pub open spec fn rank(stage: Stage) -> nat {
    match stage {
        Stage::KanaToggle(_, _, _) => 7,
        Stage::Long(_, _) | Stage::LongDigraph(_) => 6,
        Stage::Sukuon(_, _) => 5,
        Stage::Medium(_, _) | Stage::Digraph(_, _) => 4,
        Stage::Short(_, _) | Stage::Monograph(_, _) => 3,
        Stage::Tiny(_, _) | Stage::Nasal(_, _) => 1,
        Stage::Choonpu(word, _, _) => if word.len() == 0 {
            2
        } else {
            0
        },
    }
}

/// Every step either reads a character or moves to a stage of lower rank.
pub proof fn lemma_advance_decreases(stage: Stage, table: &KanaTable)
    ensures
        match advance(stage, table).1 {
            Some(next) => word_of(next).len() < word_of(stage).len() || (word_of(next).len()
                == word_of(stage).len() && rank(next) < rank(stage)),
            None => true,
        },
{
}

/// Whether the machine writes katakana in `stage`, where it wrote katakana, or
/// not, before: a toggle that the state before it found changes the kana.
pub open spec fn writes_katakana(stage: Stage, katakana: bool) -> bool {
    match stage {
        Stage::KanaToggle(_, _, true) => !katakana,
        _ => katakana,
    }
}

/// The text of a fragment; nothing where there is none.
pub open spec fn written(fragment: Option<Seq<char>>) -> Seq<char> {
    match fragment {
        Some(text) => text,
        None => Seq::empty(),
    }
}

/// What the machine writes from `stage` until it stops. `katakana` says which
/// of the two tables it used last.
pub open spec fn run(
    stage: Stage,
    katakana: bool,
    hiragana_table: &KanaTable,
    katakana_table: &KanaTable,
) -> Seq<char>
    decreases word_of(stage).len(), rank(stage),
    via run_decreases
{
    let katakana = writes_katakana(stage, katakana);
    let table = if katakana {
        katakana_table
    } else {
        hiragana_table
    };
    let taken = advance(stage, table);
    match taken.1 {
        Some(next) => written(taken.0) + run(next, katakana, hiragana_table, katakana_table),
        None => written(taken.0),
    }
}

#[via_fn]
proof fn run_decreases(
    stage: Stage,
    katakana: bool,
    hiragana_table: &KanaTable,
    katakana_table: &KanaTable,
) {
    lemma_advance_decreases(stage, hiragana_table);
    lemma_advance_decreases(stage, katakana_table);
}

/// The character that toggles the kana in a stage, if there is one.
pub open spec fn toggle_of(stage: Stage) -> Option<char> {
    match stage {
        Stage::KanaToggle(_, toggle, _) => toggle,
        Stage::Long(_, toggle) => toggle,
        Stage::Medium(_, toggle) => toggle,
        Stage::Short(_, toggle) => toggle,
        Stage::Tiny(_, toggle) => toggle,
        Stage::Sukuon(_, toggle) => toggle,
        Stage::Choonpu(_, toggle, _) => toggle,
        Stage::LongDigraph(_) => None,
        Stage::Digraph(_, toggle) => toggle,
        Stage::Monograph(_, toggle) => toggle,
        Stage::Nasal(_, toggle) => toggle,
    }
}

/// Whether the machine, run from `stage` over `table`, comes to read the
/// character that toggles the kana. Until it does, it needs no other table.
pub open spec fn reads_toggle(stage: Stage, table: &KanaTable) -> bool
    decreases word_of(stage).len(), rank(stage),
    via reads_toggle_decreases
{
    match stage {
        Stage::KanaToggle(word, toggle, _) if begins_with_some(word, toggle) => true,
        _ => match advance(stage, table).1 {
            Some(next) => reads_toggle(next, table),
            None => false,
        },
    }
}

#[via_fn]
proof fn reads_toggle_decreases(stage: Stage, table: &KanaTable) {
    lemma_advance_decreases(stage, table);
}

/// A step leaves the word as it is or reads from its start, and keeps the
/// character that toggles the kana or drops it.
pub proof fn lemma_advance_reads_a_prefix(stage: Stage, table: &KanaTable)
    ensures
        match advance(stage, table).1 {
            Some(next) => {
                &&& word_of(next).len() <= word_of(stage).len()
                &&& word_of(next) == word_of(stage).skip(
                    word_of(stage).len() - word_of(next).len(),
                )
                &&& (toggle_of(next) == toggle_of(stage) || toggle_of(next) is None)
            },
            None => true,
        },
{
    match advance(stage, table).1 {
        Some(next) => {
            assert(word_of(next) =~= word_of(stage).skip(
                word_of(stage).len() - word_of(next).len(),
            ));
        },
        None => {},
    }
}

/// The machine never reads a toggle where none is configured, or where the
/// character is absent from the word.
pub proof fn lemma_no_toggle_to_read(stage: Stage, table: &KanaTable)
    requires
        free_of(word_of(stage), toggle_of(stage)),
    ensures
        !reads_toggle(stage, table),
    decreases word_of(stage).len(), rank(stage),
{
    lemma_advance_decreases(stage, table);
    lemma_advance_reads_a_prefix(stage, table);
    lemma_free_of_start(word_of(stage), toggle_of(stage));
    match advance(stage, table).1 {
        Some(next) => {
            let read = word_of(stage).len() - word_of(next).len();
            lemma_free_of_behind(word_of(stage), toggle_of(stage), read);
            lemma_no_toggle_to_read(next, table);
        },
        None => {},
    }
}

/// The machine itself.
pub struct Machine;

impl Machine {
    /// Runs the machine over `word` and hands what it wrote to `handle`.
    ///
    /// `tables` holds the hiragana table under `false` and the katakana table
    /// under `true`. `toggles` says whether to start in katakana, and which
    /// character, if any, toggles the kana. The table of the kana to start in
    /// is needed; the other one only where the machine comes to read a toggle.
    pub fn start<'a, F, R>(
        tables: &HashMap<bool, &KanaTable<'a>>,
        toggles: (bool, Option<char>),
        word: &'a str,
        handle: F,
    ) -> (handled: R) where F: FnOnce(String) -> R
        requires
            tables@.contains_key(toggles.0),
            tables@.contains_key(!toggles.0) || !reads_toggle(
                Stage::KanaToggle(word@, toggles.1, false),
                tables@[toggles.0],
            ),
            forall|result: String|
                result@ == run(
                    Stage::KanaToggle(word@, toggles.1, false),
                    toggles.0,
                    tables@[false],
                    tables@[true],
                ) ==> call_requires(handle, (result,)),
        ensures
            exists|result: String|
                result@ == run(
                    Stage::KanaToggle(word@, toggles.1, false),
                    toggles.0,
                    tables@[false],
                    tables@[true],
                ) && call_ensures(handle, (result,), handled),
    {
        broadcast use vstd::std_specs::hash::group_hash_axioms;

        let (start_katakana, toggle_char) = toggles;
        let mut katakana = start_katakana;
        let mut table: &KanaTable<'a> = *tables.get(&katakana).unwrap();
        let mut state = State::KanaToggle(Toggle(word, toggle_char, false));
        let mut result = String::new();
        let ghost whole = run(
            Stage::KanaToggle(word@, toggles.1, false),
            toggles.0,
            tables@[false],
            tables@[true],
        );
        loop
            invariant
                tables@.contains_key(katakana),
                tables@.contains_key(!katakana) || (!(state@ matches Stage::KanaToggle(_, _, true))
                    && !reads_toggle(state@, tables@[katakana])),
                table == tables@[katakana],
                whole == run(
                    Stage::KanaToggle(word@, toggles.1, false),
                    toggles.0,
                    tables@[false],
                    tables@[true],
                ),
                result@ + run(state@, katakana, tables@[false], tables@[true]) == whole,
                forall|result: String| result@ == whole ==> call_requires(handle, (result,)),
            decreases word_of(state@).len(), rank(state@),
        {
            let ghost before = result@;
            let ghost stage = state@;
            proof {
                lemma_advance_decreases(stage, tables@[writes_katakana(stage, katakana)]);
            }
            let (s, next_state) = match state {
                State::Long(s) => s.next(table),
                State::Medium(s) => s.next(table),
                State::Short(s) => s.next(table),
                State::Tiny(s) => s.next(table),
                State::Sukuon(s) => s.next(table),
                State::Choonpu(s) => s.next(table),
                State::LongDigraph(s) => s.next(table),
                State::Digraph(s) => s.next(table),
                State::Monograph(s) => s.next(table),
                State::Nasal(s) => s.next(table),
                State::KanaToggle(s) => {
                    if s.2 {
                        katakana = !katakana;
                        table = *tables.get(&katakana).unwrap();
                    }
                    s.next(table)
                },
            };
            if let Some(s) = s {
                result.append(s);
            }
            proof {
                assert(result@ =~= before + written(text_of(s)));
            }
            match next_state {
                Some(next) => {
                    proof {
                        assert(before + (written(text_of(s)) + run(
                            next@,
                            katakana,
                            tables@[false],
                            tables@[true],
                        )) =~= result@ + run(next@, katakana, tables@[false], tables@[true]));
                    }
                    state = next;
                },
                None => {
                    let ghost text = result;
                    proof {
                        assert(text@ == whole);
                    }
                    let handled = handle(result);
                    proof {
                        assert(call_ensures(handle, (text,), handled));
                    }
                    return handled;
                },
            }
        }
    }

    /// Runs the machine like `start`, but first looks whether `tables` holds
    /// what the run may need: the table of the kana to start in, and the other
    /// one unless no toggle is configured or its character is absent from
    /// `word`. Without them nothing is run and the result is `None`.
    pub fn try_start<'a, F, R>(
        tables: &HashMap<bool, &KanaTable<'a>>,
        toggles: (bool, Option<char>),
        word: &'a str,
        handle: F,
    ) -> (handled: Option<R>) where F: FnOnce(String) -> R
        requires
            forall|result: String| call_requires(handle, (result,)),
        ensures
            handled is Some <==> tables@.contains_key(toggles.0) && (tables@.contains_key(
                !toggles.0,
            ) || free_of(word@, toggles.1)),
            handled is Some ==> exists|result: String|
                result@ == run(
                    Stage::KanaToggle(word@, toggles.1, false),
                    toggles.0,
                    tables@[false],
                    tables@[true],
                ) && call_ensures(handle, (result,), handled->0),
    {
        broadcast use vstd::std_specs::hash::group_hash_axioms;

        if !tables.contains_key(&toggles.0) {
            return None;
        }
        let other = !toggles.0;
        if !tables.contains_key(&other) {
            let toggled = match toggles.1 {
                Some(c) => contains_char(word, c),
                None => false,
            };
            if toggled {
                return None;
            }
            proof {
                lemma_no_toggle_to_read(
                    Stage::KanaToggle(word@, toggles.1, false),
                    tables@[toggles.0],
                );
            }
        }
        Some(Machine::start(tables, toggles, word, handle))
    }
}

} // verus!
