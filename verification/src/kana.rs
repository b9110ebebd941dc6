//! The two kana, and what each of them writes for a key.

use vstd::prelude::*;
use vstd::string::*;
use crate::glyphs::chouonpu::{CHOUONPU_GRAPH, CHOUONPU_MATCHES};
use crate::glyphs::hiragana;
use crate::glyphs::katakana;
use crate::glyphs::sokuon::SOKUON_MATCHES;
use crate::table::{contains, entries_of, glyph_of, items_of, lookup};
use crate::text::{lowercase_of, text_of, to_lowercase};

verus! {

/// One of the two syllabaries.
#[derive(Clone, Copy, Debug, PartialEq, Eq)]
pub enum Kana {
    /// Hiragana. It writes a long vowel by repeating it, unless
    /// `show_prolongation` is set.
    Hiragana { show_prolongation: bool },
    /// Katakana, with or without the syllables that only loanwords use.
    Katakana { extended: bool },
}

/// The glyph of the syllable `key`, a key in lower case.
pub open spec fn syllable_glyph(kana: Kana, key: Seq<char>) -> Option<Seq<char>> {
    match kana {
        Kana::Hiragana { .. } => glyph_of(entries_of(hiragana::SYLLABARY@), key),
        Kana::Katakana { extended } => {
            let overlay = glyph_of(entries_of(katakana::EXTENDED_SYLLABARY@), key);
            if extended && overlay is Some {
                overlay
            } else {
                glyph_of(entries_of(katakana::SYLLABARY@), key)
            }
        },
    }
}

/// The mark that `kana` writes for a doubled consonant.
pub open spec fn sokuon_mark(kana: Kana) -> Seq<char> {
    match kana {
        Kana::Hiragana { .. } => hiragana::SOKUON_GRAPH@,
        Kana::Katakana { .. } => katakana::SOKUON_GRAPH@,
    }
}

/// The sokuon of `kana`, where `key` is a doubled consonant.
pub open spec fn sokuon_glyph(kana: Kana, key: Seq<char>) -> Option<Seq<char>> {
    if items_of(SOKUON_MATCHES@).contains(key) {
        Some(sokuon_mark(kana))
    } else {
        None
    }
}

/// Whether `kana` writes a doubled vowel as a prolongation.
pub open spec fn prolongs(kana: Kana) -> bool {
    match kana {
        Kana::Hiragana { show_prolongation } => show_prolongation,
        Kana::Katakana { .. } => true,
    }
}

/// The chouonpu, where `kana` prolongs and `key` is a doubled vowel.
pub open spec fn chouonpu_glyph(kana: Kana, key: Seq<char>) -> Option<Seq<char>> {
    if prolongs(kana) && items_of(CHOUONPU_MATCHES@).contains(key) {
        Some(CHOUONPU_GRAPH@)
    } else {
        None
    }
}

/// The small form of the vowel `key`; only katakana has one.
pub open spec fn small_vowel_glyph(kana: Kana, key: Seq<char>) -> Option<Seq<char>> {
    match kana {
        Kana::Hiragana { .. } => None,
        Kana::Katakana { .. } => glyph_of(entries_of(katakana::SMALL_VOWELS@), key),
    }
}

impl Kana {
    /// The glyph of a syllable, whatever the case of `key`.
    pub fn get(&self, key: &str) -> (glyph: Option<&'static str>)
        ensures
            text_of(glyph) == syllable_glyph(*self, lowercase_of(key@)),
    {
        let folded = to_lowercase(key);
        self.get_folded(folded.as_str())
    }

    /// The glyph of a syllable whose key is in lower case already.
    pub fn get_folded(&self, key: &str) -> (glyph: Option<&'static str>)
        ensures
            text_of(glyph) == syllable_glyph(*self, key@),
    {
        match self {
            Kana::Hiragana { .. } => lookup(hiragana::SYLLABARY.as_slice(), key),
            Kana::Katakana { extended } => {
                let overlay = if *extended {
                    lookup(katakana::EXTENDED_SYLLABARY.as_slice(), key)
                } else {
                    None
                };
                match overlay {
                    Some(glyph) => Some(glyph),
                    None => lookup(katakana::SYLLABARY.as_slice(), key),
                }
            },
        }
    }

    /// The sokuon, where `key` is a doubled consonant in either case.
    pub fn sokuon(&self, key: &str) -> (glyph: Option<&'static str>)
        ensures
            text_of(glyph) == sokuon_glyph(*self, lowercase_of(key@)),
    {
        let folded = to_lowercase(key);
        self.sokuon_folded(folded.as_str())
    }

    /// The sokuon, where `key` is a doubled consonant in lower case.
    pub fn sokuon_folded(&self, key: &str) -> (glyph: Option<&'static str>)
        ensures
            text_of(glyph) == sokuon_glyph(*self, key@),
    {
        if contains(SOKUON_MATCHES.as_slice(), key) {
            Some(self.sokuon_literal())
        } else {
            None
        }
    }

    /// The mark for a doubled consonant.
    pub fn sokuon_literal(&self) -> (glyph: &'static str)
        ensures
            glyph@ == sokuon_mark(*self),
    {
        match self {
            Kana::Hiragana { .. } => hiragana::SOKUON_GRAPH,
            Kana::Katakana { .. } => katakana::SOKUON_GRAPH,
        }
    }

    /// The chouonpu, where `key` is a doubled vowel in either case.
    pub fn chouonpu(&self, key: &str) -> (glyph: Option<&'static str>)
        ensures
            text_of(glyph) == chouonpu_glyph(*self, lowercase_of(key@)),
    {
        let folded = to_lowercase(key);
        self.chouonpu_folded(folded.as_str())
    }

    /// The chouonpu, where `key` is a doubled vowel in lower case.
    pub fn chouonpu_folded(&self, key: &str) -> (glyph: Option<&'static str>)
        ensures
            text_of(glyph) == chouonpu_glyph(*self, key@),
    {
        let prolongs = match self {
            Kana::Hiragana { show_prolongation } => *show_prolongation,
            Kana::Katakana { .. } => true,
        };
        if prolongs && contains(CHOUONPU_MATCHES.as_slice(), key) {
            Some(CHOUONPU_GRAPH)
        } else {
            None
        }
    }

    /// The small form of a vowel in either case.
    pub fn small_vowel(&self, key: &str) -> (glyph: Option<&'static str>)
        ensures
            text_of(glyph) == small_vowel_glyph(*self, lowercase_of(key@)),
    {
        let folded = to_lowercase(key);
        self.small_vowel_folded(folded.as_str())
    }

    /// The small form of a vowel in lower case.
    pub fn small_vowel_folded(&self, key: &str) -> (glyph: Option<&'static str>)
        ensures
            text_of(glyph) == small_vowel_glyph(*self, key@),
    {
        match self {
            Kana::Hiragana { .. } => None,
            Kana::Katakana { .. } => lookup(katakana::SMALL_VOWELS.as_slice(), key),
        }
    }
}

/// With the extended syllabary switched on, a key that stands in both katakana
/// tables is written as the extended syllabary has it.
pub proof fn law_extended_overlay(key: Seq<char>)
    requires
        glyph_of(entries_of(katakana::EXTENDED_SYLLABARY@), key) is Some,
        glyph_of(entries_of(katakana::SYLLABARY@), key) is Some,
    ensures
        syllable_glyph(Kana::Katakana { extended: true }, key) == glyph_of(
            entries_of(katakana::EXTENDED_SYLLABARY@),
            key,
        ),
{
}

/// Two tables that list the same keys in the same order know the same keys.
pub proof fn lemma_same_keys(
    left: Seq<(Seq<char>, Seq<char>)>,
    right: Seq<(Seq<char>, Seq<char>)>,
    key: Seq<char>,
)
    requires
        left.len() == right.len(),
        forall|i: int| 0 <= i < left.len() ==> left[i].0 == right[i].0,
    ensures
        glyph_of(left, key) is Some <==> glyph_of(right, key) is Some,
    decreases left.len(),
{
    if left.len() > 0 {
        assert(left.last().0 == right.last().0);
        lemma_same_keys(left.drop_last(), right.drop_last(), key);
    }
}

/// Hiragana and katakana without its extension know the same syllables.
pub proof fn lemma_kana_know_the_same(key: Seq<char>)
    ensures
        syllable_glyph(Kana::Hiragana { show_prolongation: false }, key) is Some
            <==> syllable_glyph(Kana::Katakana { extended: false }, key) is Some,
{
    let left = entries_of(hiragana::SYLLABARY@);
    let right = entries_of(katakana::SYLLABARY@);
    assert forall|i: int| 0 <= i < left.len() implies left[i].0 == right[i].0 by {
        assert(hiragana::SYLLABARY@[i].0@ == katakana::SYLLABARY@[i].0@);
    }
    lemma_same_keys(left, right, key);
}

} // verus!
