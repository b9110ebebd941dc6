//! Lookup in a table of romaji keys, and membership in a set of them.

use vstd::prelude::*;
use vstd::slice::slice_to_vec;
use crate::glyphs::chouonpu::{CHOUONPU_GRAPH, CHOUONPU_MATCHES};
use crate::glyphs::hiragana;
use crate::glyphs::katakana;
use crate::glyphs::sokuon::SOKUON_MATCHES;
use vstd::string::*;
use crate::text::{lowercase_of, same_text, text_of, to_lowercase};

verus! {

/// The key and the glyph of each entry, as plain texts.
pub open spec fn entries_of(table: Seq<(&str, &str)>) -> Seq<(Seq<char>, Seq<char>)> {
    table.map_values(|entry: (&str, &str)| (entry.0@, entry.1@))
}

/// The items of a set of keys, as plain texts.
pub open spec fn items_of(set: Seq<&str>) -> Seq<Seq<char>> {
    set.map_values(|item: &str| item@)
}

/// The glyph that a table gives for `key`. Where a key stands in it more than
/// once, the last entry counts.
pub open spec fn glyph_of(entries: Seq<(Seq<char>, Seq<char>)>, key: Seq<char>) -> Option<
    Seq<char>,
>
    decreases entries.len(),
{
    if entries.len() == 0 {
        None
    } else if entries.last().0 == key {
        Some(entries.last().1)
    } else {
        glyph_of(entries.drop_last(), key)
    }
}

/// Looks `key` up in `table`.
pub fn lookup<'a>(table: &[(&'a str, &'a str)], key: &str) -> (glyph: Option<&'a str>)
    ensures
        text_of(glyph) == glyph_of(entries_of(table@), key@),
{
    let ghost entries = entries_of(table@);
    let mut i: usize = table.len();
    proof {
        assert(entries.take(i as int) =~= entries);
    }
    while i > 0
        invariant
            i <= table.len(),
            entries == entries_of(table@),
            glyph_of(entries, key@) == glyph_of(entries.take(i as int), key@),
        decreases i,
    {
        let entry = table[i - 1];
        proof {
            let front = entries.take(i as int);
            assert(front.last() == entries[i - 1]);
            assert(front.drop_last() =~= entries.take(i - 1));
        }
        if same_text(entry.0, key) {
            return Some(entry.1);
        }
        i = i - 1;
    }
    proof {
        assert(entries.take(0) =~= Seq::empty());
    }
    None
}

/// Whether `key` is one of the items of `set`.
pub fn contains(set: &[&str], key: &str) -> (found: bool)
    ensures
        found == items_of(set@).contains(key@),
{
    let ghost items = items_of(set@);
    let mut i: usize = 0;
    while i < set.len()
        invariant
            i <= set.len(),
            items == items_of(set@),
            forall|j: int| 0 <= j < i ==> items[j] != key@,
        decreases set.len() - i,
    {
        if same_text(set[i], key) {
            proof {
                assert(items[i as int] == key@);
            }
            return true;
        }
        i = i + 1;
    }
    false
}


/// A mark that stands for a doubled letter: the letter pairs that it stands
/// for, in lower case, and the glyph it is written as.
#[derive(Debug)]
pub struct Grapheme<'a> {
    pub matches: Vec<&'a str>,
    pub graph: &'a str,
}

/// The marks of a kana: every kana has a sokuon, not every kana a choonpu.
#[derive(Debug)]
pub struct Graphemes<'a> {
    pub sukuon: Grapheme<'a>,
    pub choonpu: Option<Grapheme<'a>>,
}

/// A kana as a caller supplies it: its syllabograms by romaji key, and its
/// marks. The keys are in lower case; of two entries with one key the later one
/// counts.
#[derive(Debug)]
pub struct KanaTable<'a> {
    pub syllabograms: Vec<(&'a str, &'a str)>,
    pub graphemes: Graphemes<'a>,
}

impl<'a> Grapheme<'a> {
    /// Whether the mark stands for the letter pair `key`.
    pub open spec fn stands_for(&self, key: Seq<char>) -> bool {
        items_of(self.matches@).contains(key)
    }

    /// Whether the mark stands for the letter pair `key`, whatever its case.
    pub fn has(&self, key: &str) -> (found: bool)
        ensures
            found == self.stands_for(lowercase_of(key@)),
    {
        let folded = to_lowercase(key);
        self.has_folded(folded.as_str())
    }

    /// Whether the mark stands for the letter pair `key`, a key in lower case.
    pub fn has_folded(&self, key: &str) -> (found: bool)
        ensures
            found == self.stands_for(key@),
    {
        contains(self.matches.as_slice(), key)
    }
}

impl<'a> Default for Grapheme<'a> {
    fn default() -> (grapheme: Self)
        ensures
            grapheme.matches@.len() == 0,
            grapheme.graph@.len() == 0,
    {
        proof {
            reveal_strlit("");
        }
        Grapheme { matches: Vec::new(), graph: "" }
    }
}

impl<'a> Default for Graphemes<'a> {
    fn default() -> (graphemes: Self)
        ensures
            graphemes.sukuon.matches@.len() == 0,
            graphemes.sukuon.graph@.len() == 0,
            graphemes.choonpu is None,
    {
        Graphemes { sukuon: Grapheme::default(), choonpu: None }
    }
}

impl<'a> KanaTable<'a> {
    /// The syllabogram that the table gives for `key`.
    pub open spec fn syllabogram(&self, key: Seq<char>) -> Option<Seq<char>> {
        glyph_of(entries_of(self.syllabograms@), key)
    }

    /// Whether the kana writes a long vowel with a mark.
    pub open spec fn prolongs(&self) -> bool {
        self.graphemes.choonpu is Some
    }

    /// The syllabogram that the table gives for `key`, whatever its case.
    pub fn get(&self, key: &str) -> (glyph: Option<&'a str>)
        ensures
            text_of(glyph) == self.syllabogram(lowercase_of(key@)),
    {
        let folded = to_lowercase(key);
        self.get_folded(folded.as_str())
    }

    /// The syllabogram that the table gives for `key`, a key in lower case.
    pub fn get_folded(&self, key: &str) -> (glyph: Option<&'a str>)
        ensures
            text_of(glyph) == self.syllabogram(key@),
    {
        lookup(self.syllabograms.as_slice(), key)
    }
}

/// A kana as the section parser reads it: its graphs by romaji key, and its
/// marks. The keys are in lower case; of two entries with one key the later one
/// counts.
#[derive(Debug)]
pub struct Spec<'a> {
    pub graphs: Vec<(&'a str, &'a str)>,
    pub graphemes: Graphemes<'a>,
}

impl<'a> Spec<'a> {
    /// The graph that the table gives for `key`.
    pub open spec fn graph(&self, key: Seq<char>) -> Option<Seq<char>> {
        glyph_of(entries_of(self.graphs@), key)
    }

    /// Whether the kana writes a long vowel with a mark.
    pub open spec fn prolongs(&self) -> bool {
        self.graphemes.choonpu is Some
    }

    /// The graph that the table gives for `key`, whatever its case.
    pub fn get(&self, key: &str) -> (glyph: Option<&'a str>)
        ensures
            text_of(glyph) == self.graph(lowercase_of(key@)),
    {
        let folded = to_lowercase(key);
        self.get_folded(folded.as_str())
    }

    /// The graph that the table gives for `key`, a key in lower case.
    pub fn get_folded(&self, key: &str) -> (glyph: Option<&'a str>)
        ensures
            text_of(glyph) == self.graph(key@),
    {
        lookup(self.graphs.as_slice(), key)
    }
}

impl<'a> Default for Spec<'a> {
    fn default() -> (table: Self)
        ensures
            table.graphs@.len() == 0,
            table.graphemes.sukuon.matches@.len() == 0,
            table.graphemes.sukuon.graph@.len() == 0,
            table.graphemes.choonpu is None,
    {
        Spec { graphs: Vec::new(), graphemes: Graphemes::default() }
    }
}

impl<'a> Default for KanaTable<'a> {
    fn default() -> (table: Self)
        ensures
            table.syllabograms@.len() == 0,
            table.graphemes.sukuon.matches@.len() == 0,
            table.graphemes.sukuon.graph@.len() == 0,
            table.graphemes.choonpu is None,
    {
        KanaTable { syllabograms: Vec::new(), graphemes: Graphemes::default() }
    }
}

/// In two tables, one behind the other, the second one counts where it knows
/// the key.
pub proof fn lemma_glyph_of_both(
    first: Seq<(Seq<char>, Seq<char>)>,
    second: Seq<(Seq<char>, Seq<char>)>,
    key: Seq<char>,
)
    ensures
        glyph_of(first + second, key) == if glyph_of(second, key) is Some {
            glyph_of(second, key)
        } else {
            glyph_of(first, key)
        },
    decreases second.len(),
{
    if second.len() == 0 {
        assert(first + second =~= first);
    } else {
        assert((first + second).drop_last() =~= first + second.drop_last());
        assert((first + second).last() == second.last());
        lemma_glyph_of_both(first, second.drop_last(), key);
    }
}

/// Appends the entries of `table` to `entries`.
fn extend<'a>(entries: &mut Vec<(&'a str, &'a str)>, table: &[(&'a str, &'a str)])
    ensures
        final(entries)@ == old(entries)@ + table@,
{
    let mut i: usize = 0;
    while i < table.len()
        invariant
            i <= table.len(),
            entries@ == old(entries)@ + table@.take(i as int),
        decreases table.len() - i,
    {
        entries.push(table[i]);
        proof {
            assert(table@.take(i + 1) =~= table@.take(i as int).push(table@[i as int]));
        }
        i = i + 1;
    }
    proof {
        assert(table@.take(table@.len() as int) =~= table@);
    }
}

/// The marks of a kana: its sokuon, and the chouonpu where it has one.
fn marks(sokuon: &'static str, choonpu: bool) -> (graphemes: Graphemes<'static>)
    ensures
        graphemes.sukuon.matches@ == SOKUON_MATCHES@,
        graphemes.sukuon.graph == sokuon,
        graphemes.choonpu is Some == choonpu,
        choonpu ==> graphemes.choonpu->0.matches@ == CHOUONPU_MATCHES@
            && graphemes.choonpu->0.graph == CHOUONPU_GRAPH,
{
    Graphemes {
        sukuon: Grapheme { matches: slice_to_vec(SOKUON_MATCHES.as_slice()), graph: sokuon },
        choonpu: if choonpu {
            Some(
                Grapheme {
                    matches: slice_to_vec(CHOUONPU_MATCHES.as_slice()),
                    graph: CHOUONPU_GRAPH,
                },
            )
        } else {
            None
        },
    }
}

/// The two kana of the library as tables: hiragana first, then katakana.
///
/// The katakana table holds the syllabary and, behind it, the extended
/// syllabary, so that it knows what katakana with its extension knows. Only
/// katakana has a choonpu.
pub fn load_kanas() -> (tables: (KanaTable<'static>, KanaTable<'static>))
    ensures
        tables.0.syllabograms@ == hiragana::SYLLABARY@,
        tables.0.graphemes.sukuon.matches@ == SOKUON_MATCHES@,
        tables.0.graphemes.sukuon.graph == hiragana::SOKUON_GRAPH,
        tables.0.graphemes.choonpu is None,
        tables.1.syllabograms@ == katakana::SYLLABARY@ + katakana::EXTENDED_SYLLABARY@,
        tables.1.graphemes.sukuon.matches@ == SOKUON_MATCHES@,
        tables.1.graphemes.sukuon.graph == katakana::SOKUON_GRAPH,
        tables.1.graphemes.choonpu is Some,
        tables.1.graphemes.choonpu->0.matches@ == CHOUONPU_MATCHES@,
        tables.1.graphemes.choonpu->0.graph == CHOUONPU_GRAPH,
        forall|key: Seq<char>| #[trigger]
            tables.1.syllabogram(key) == if glyph_of(
                entries_of(katakana::EXTENDED_SYLLABARY@),
                key,
            ) is Some {
                glyph_of(entries_of(katakana::EXTENDED_SYLLABARY@), key)
            } else {
                glyph_of(entries_of(katakana::SYLLABARY@), key)
            },
{
    let plain = slice_to_vec(hiragana::SYLLABARY.as_slice());
    let mut angular = slice_to_vec(katakana::SYLLABARY.as_slice());
    extend(&mut angular, katakana::EXTENDED_SYLLABARY.as_slice());
    proof {
        assert(angular@ =~= katakana::SYLLABARY@ + katakana::EXTENDED_SYLLABARY@);
        let first = entries_of(katakana::SYLLABARY@);
        let second = entries_of(katakana::EXTENDED_SYLLABARY@);
        assert(entries_of(angular@) =~= first + second);
        assert forall|key: Seq<char>|
            glyph_of(entries_of(angular@), key) == if glyph_of(second, key) is Some {
                glyph_of(second, key)
            } else {
                glyph_of(first, key)
            } by {
            lemma_glyph_of_both(first, second, key);
        }
    }
    (
        KanaTable { syllabograms: plain, graphemes: marks(hiragana::SOKUON_GRAPH, false) },
        KanaTable { syllabograms: angular, graphemes: marks(katakana::SOKUON_GRAPH, true) },
    )
}

} // verus!
