//! A parser that goes through the sections of a kana table in turn.
//!
//! A section is one way to read the start of a word: as a long digraph, as a
//! doubled consonant, and so on down to a single character. Each section
//! either writes something and starts over behind what it read, or hands the
//! word on to the next section.

use vstd::prelude::*;
use vstd::string::*;
use crate::table::Spec;
use crate::text::{lowercase_of, text_of};
use crate::utf8::{count_chars, prefix, slice_from, slice_to, suffix};

verus! {

/// The sections of a kana table.
#[derive(Debug, PartialEq)]
pub enum Section {
    /// Syllables of three characters.
    Digraph,
    /// Syllables of two characters.
    Monograph,
    /// Single characters, such as the nasal `n`.
    Nasal,
    /// Doubled consonants.
    Sukuon,
    /// Long vowels.
    Choonpu,
    /// Syllables of four characters.
    LongDigraph,
}

impl Default for Section {
    fn default() -> (section: Self)
        ensures
            section == Section::LongDigraph,
    {
        Section::LongDigraph
    }
}

/// Where the parser stands: the section to try, and the word that is left.
#[derive(Debug, PartialEq)]
pub struct State<'a> {
    pub section: Section,
    pub word: &'a str,
}

/// A `State` as plain values.
pub struct Place {
    pub section: Section,
    pub word: Seq<char>,
}

impl<'a> View for State<'a> {
    type V = Place;

    open spec fn view(&self) -> Place {
        Place { section: self.section, word: self.word@ }
    }
}

/// What one section gives: what it wrote, if anything, and where to go on.
pub type Computation<'a> = (Option<&'a str>, State<'a>);

/// A `Computation` as plain values.
pub open spec fn computed(computation: Option<Computation>) -> Option<(Option<Seq<char>>, Place)> {
    match computation {
        Some((written, state)) => Some((text_of(written), state@)),
        None => None,
    }
}

/// A section that did not match hands the whole word on.
pub open spec fn hand_on(word: Seq<char>, section: Section) -> Option<(Option<Seq<char>>, Place)> {
    Some((None, Place { section, word }))
}

/// A section that looks for a graph of `size` characters: the one that the
/// table has for the window in lower case. Behind a match the parser starts
/// over, unless the kana has a choonpu: then the last character of the match
/// stays for the section that looks for a long vowel.
pub open spec fn graph_step(table: &Spec, word: Seq<char>, size: int, miss: Section) -> Option<
    (Option<Seq<char>>, Place),
> {
    if word.len() < size {
        hand_on(word, miss)
    } else {
        match table.graph(lowercase_of(prefix(word, size))) {
            Some(glyph) => Some(
                (
                    Some(glyph),
                    if table.prolongs() {
                        Place { section: Section::Choonpu, word: suffix(word, size - 1) }
                    } else {
                        Place { section: Section::LongDigraph, word: suffix(word, size) }
                    },
                ),
            ),
            None => hand_on(word, miss),
        }
    }
}

/// What `section` makes of `word`. `None` says that the word is read; that
/// happens in `Nasal`, the last section, and only there.
pub open spec fn step(section: Section, table: &Spec, word: Seq<char>) -> Option<
    (Option<Seq<char>>, Place),
> {
    match section {
        Section::LongDigraph => graph_step(table, word, 4, Section::Sukuon),
        Section::Digraph => graph_step(table, word, 3, Section::Monograph),
        Section::Monograph => graph_step(table, word, 2, Section::Nasal),
        Section::Sukuon => if word.len() < 2 {
            hand_on(word, Section::Nasal)
        } else if table.graphemes.sukuon.stands_for(lowercase_of(prefix(word, 2))) {
            Some(
                (
                    Some(table.graphemes.sukuon.graph@),
                    Place { section: Section::LongDigraph, word: suffix(word, 1) },
                ),
            )
        } else {
            hand_on(word, Section::Digraph)
        },
        Section::Choonpu => if word.len() < 2 {
            hand_on(suffix(word, 1), Section::Nasal)
        } else {
            match table.graphemes.choonpu {
                Some(choonpu) if choonpu.stands_for(lowercase_of(prefix(word, 2))) => Some(
                    (
                        Some(choonpu.graph@),
                        Place { section: Section::Choonpu, word: suffix(word, 1) },
                    ),
                ),
                _ => hand_on(suffix(word, 1), Section::LongDigraph),
            }
        },
        Section::Nasal => if word.len() < 1 {
            None
        } else {
            match table.graph(lowercase_of(prefix(word, 1))) {
                Some(glyph) => Some(
                    (
                        Some(glyph),
                        if table.prolongs() {
                            Place { section: Section::Choonpu, word }
                        } else {
                            Place { section: Section::LongDigraph, word: suffix(word, 1) }
                        },
                    ),
                ),
                None => Some(
                    (
                        Some(prefix(word, 1)),
                        Place { section: Section::LongDigraph, word: suffix(word, 1) },
                    ),
                ),
            }
        },
    }
}

/// The parser of the section with the number `S`; the sections are numbered
/// in the order in which `Section` lists them.
pub struct Parser<const S: usize>;

impl<const S: usize> Parser<S> {
    /// The number of characters in `word`.
    fn utf8_word_count(word: &str) -> (n: usize)
        ensures
            n == word@.len(),
    {
        count_chars(word)
    }

    /// A section that looks for a graph of `window` characters.
    fn graph_next<'a>(table: &'a Spec<'a>, word: &'a str, window: usize, miss: Section) -> (taken:
        Option<Computation<'a>>)
        requires
            window >= 1,
        ensures
            computed(taken) == graph_step(table, word@, window as int, miss),
    {
        if Self::utf8_word_count(word) < window {
            return Some((None, State { word, section: miss }));
        }
        match table.get(slice_to(word, window)) {
            Some(symbol) => {
                let state = if table.graphemes.choonpu.is_some() {
                    State { word: slice_from(word, window - 1), section: Section::Choonpu }
                } else {
                    State { word: slice_from(word, window), section: Section::default() }
                };
                Some((Some(symbol), state))
            },
            None => Some((None, State { word, section: miss })),
        }
    }
}

impl Parser<5> {
    /// Looks for a syllable of four characters.
    pub fn next<'a>(table: &'a Spec<'a>, word: &'a str) -> (taken: Option<Computation<'a>>)
        ensures
            computed(taken) == step(Section::LongDigraph, table, word@),
    {
        Self::graph_next(table, word, 4, Section::Sukuon)
    }
}

impl Parser<0> {
    /// Looks for a syllable of three characters.
    pub fn next<'a>(table: &'a Spec<'a>, word: &'a str) -> (taken: Option<Computation<'a>>)
        ensures
            computed(taken) == step(Section::Digraph, table, word@),
    {
        Self::graph_next(table, word, 3, Section::Monograph)
    }
}

impl Parser<1> {
    /// Looks for a syllable of two characters.
    pub fn next<'a>(table: &'a Spec<'a>, word: &'a str) -> (taken: Option<Computation<'a>>)
        ensures
            computed(taken) == step(Section::Monograph, table, word@),
    {
        Self::graph_next(table, word, 2, Section::Nasal)
    }
}

impl Parser<3> {
    /// Looks for a doubled consonant. Its first letter is written as the
    /// sukuon; its second begins the next syllable.
    pub fn next<'a>(table: &'a Spec<'a>, word: &'a str) -> (taken: Option<Computation<'a>>)
        ensures
            computed(taken) == step(Section::Sukuon, table, word@),
    {
        if Self::utf8_word_count(word) < 2 {
            return Some((None, State { word, section: Section::Nasal }));
        }
        if table.graphemes.sukuon.has(slice_to(word, 2)) {
            return Some(
                (
                    Some(table.graphemes.sukuon.graph),
                    State { word: slice_from(word, 1), section: Section::default() },
                ),
            );
        }
        Some((None, State { word, section: Section::Digraph }))
    }
}

impl Parser<4> {
    /// Looks for a long vowel. The word begins with the last character of the
    /// syllable just written, which is read in any case. Where the same vowel
    /// follows it, the choonpu is written and the section is tried once more.
    pub fn next<'a>(table: &'a Spec<'a>, word: &'a str) -> (taken: Option<Computation<'a>>)
        ensures
            computed(taken) == step(Section::Choonpu, table, word@),
    {
        let shim = slice_from(word, 1);
        if Self::utf8_word_count(word) < 2 {
            return Some((None, State { word: shim, section: Section::Nasal }));
        }
        match &table.graphemes.choonpu {
            Some(choonpu) => {
                if choonpu.has(slice_to(word, 2)) {
                    return Some(
                        (Some(choonpu.graph), State { word: shim, section: Section::Choonpu }),
                    );
                }
            },
            None => {},
        }
        Some((None, State { word: shim, section: Section::default() }))
    }
}

impl Parser<2> {
    /// Writes the first character of the word: as its graph, or as it stands
    /// where it has none. Behind a graph the character stays for the section
    /// that looks for a long vowel, where the kana has a choonpu. `None` says
    /// that the word is read.
    pub fn next<'a>(table: &'a Spec<'a>, word: &'a str) -> (taken: Option<Computation<'a>>)
        ensures
            computed(taken) == step(Section::Nasal, table, word@),
    {
        if Self::utf8_word_count(word) < 1 {
            return None;
        }
        let key = slice_to(word, 1);
        match table.get(key) {
            Some(symbol) => {
                let state = if table.graphemes.choonpu.is_some() {
                    State { word, section: Section::Choonpu }
                } else {
                    State { word: slice_from(word, 1), section: Section::default() }
                };
                Some((Some(symbol), state))
            },
            None => Some(
                (Some(key), State { word: slice_from(word, 1), section: Section::default() }),
            ),
        }
    }
}

/// How far a place is from reading a character, counted in sections that
/// hand the word on.
pub open spec fn rank(place: Place) -> nat {
    match place.section {
        Section::LongDigraph => 5,
        Section::Sukuon => 4,
        Section::Digraph => 3,
        Section::Monograph => 2,
        Section::Nasal => 1,
        Section::Choonpu => if place.word.len() == 0 {
            2
        } else {
            0
        },
    }
}

/// Every section either reads a character or hands on to a place of lower
/// rank.
pub proof fn lemma_step_decreases(section: Section, table: &Spec, word: Seq<char>)
    ensures
        match step(section, table, word) {
            Some((_, place)) => place.word.len() < word.len() || (place.word.len() == word.len()
                && rank(place) < rank(Place { section, word })),
            None => true,
        },
{
}

/// What the parser writes from `place` until the word is read.
pub open spec fn run(place: Place, table: &Spec) -> Seq<char>
    decreases place.word.len(), rank(place),
    via run_decreases
{
    match step(place.section, table, place.word) {
        Some((Some(written), next)) => written + run(next, table),
        Some((None, next)) => run(next, table),
        None => Seq::empty(),
    }
}

#[via_fn]
proof fn run_decreases(place: Place, table: &Spec) {
    lemma_step_decreases(place.section, table, place.word);
}

/// What the parser makes of a whole word.
pub open spec fn parsed(table: &Spec, word: Seq<char>) -> Seq<char> {
    run(Place { section: Section::LongDigraph, word }, table)
}

impl<'a> State<'a> {
    /// Parses `word` and hands what was written to `handle`.
    pub fn init<F, R>(table: &'a Spec<'a>, word: &'a str, handle: F) -> (handled: R) where
        F: FnOnce(String) -> R,

        requires
            forall|result: String|
                result@ == parsed(table, word@) ==> call_requires(handle, (result,)),
        ensures
            exists|result: String|
                result@ == parsed(table, word@) && call_ensures(handle, (result,), handled),
    {
        let mut state = State { section: Section::default(), word };
        let mut computed = String::new();
        loop
            invariant
                computed@ + run(state@, table) == parsed(table, word@),
                forall|result: String|
                    result@ == parsed(table, word@) ==> call_requires(handle, (result,)),
            decreases state@.word.len(), rank(state@),
        {
            let ghost before = computed@;
            let ghost place = state@;
            proof {
                lemma_step_decreases(place.section, table, place.word);
            }
            match state.compute(table) {
                Some((result, next_state)) => {
                    if let Some(symbol) = result {
                        computed.append(symbol);
                    }
                    proof {
                        let rest = run(next_state@, table);
                        match result {
                            Some(symbol) => {
                                assert(before + (symbol@ + rest) =~= (before + symbol@) + rest);
                            },
                            None => {},
                        }
                    }
                    state = next_state;
                },
                None => {
                    let ghost text = computed;
                    proof {
                        assert(before + Seq::<char>::empty() =~= before);
                        assert(text@ == parsed(table, word@));
                    }
                    let handled = handle(computed);
                    proof {
                        assert(call_ensures(handle, (text,), handled));
                    }
                    return handled;
                },
            }
        }
    }

    /// Takes the step of this state's section.
    pub fn compute(self, table: &'a Spec<'a>) -> (taken: Option<Computation<'a>>)
        ensures
            computed(taken) == step(self.section, table, self.word@),
    {
        let State { word, section } = self;
        match section {
            Section::Digraph => Parser::<0>::next(table, word),
            Section::Monograph => Parser::<1>::next(table, word),
            Section::Nasal => Parser::<2>::next(table, word),
            Section::Sukuon => Parser::<3>::next(table, word),
            Section::Choonpu => Parser::<4>::next(table, word),
            Section::LongDigraph => Parser::<5>::next(table, word),
        }
    }
}

} // verus!
