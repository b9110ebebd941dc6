//! What the state machine carries from one step to the next.

use vstd::prelude::*;
use crate::config::{Config, SpecialChars};
use crate::glyphs::punctuation::{DOUBLE_QUOTES, SINGLE_QUOTES};
use crate::kana::Kana;
use crate::switch::Switch;

verus! {

/// The open and the closed form of both kinds of quotes, and which form each
/// kind writes next.
pub struct Punctuation {
    pub single_quotes: Switch<&'static str>,
    pub double_quotes: Switch<&'static str>,
}

/// The quotes as plain texts: for each kind the glyph that comes next and the
/// one that comes after it.
pub struct Quotes {
    pub single: Seq<char>,
    pub single_after: Seq<char>,
    pub double: Seq<char>,
    pub double_after: Seq<char>,
}

impl Quotes {
    /// Both kinds of quotes before any was written: the opening form is next.
    pub open spec fn closed() -> Quotes {
        Quotes {
            single: SINGLE_QUOTES@[0]@,
            single_after: SINGLE_QUOTES@[1]@,
            double: DOUBLE_QUOTES@[0]@,
            double_after: DOUBLE_QUOTES@[1]@,
        }
    }

    /// The quotes after a single quote was written.
    pub open spec fn flip_single(self) -> Quotes {
        Quotes { single: self.single_after, single_after: self.single, ..self }
    }

    /// The quotes after a double quote was written.
    pub open spec fn flip_double(self) -> Quotes {
        Quotes { double: self.double_after, double_after: self.double, ..self }
    }
}

/// The quotes after a run of quotes was written, one entry for each: `true`
/// for a single quote, `false` for a double quote.
pub open spec fn quotes_after(written: Seq<bool>) -> Quotes
    decreases written.len(),
{
    if written.len() == 0 {
        Quotes::closed()
    } else if written.last() {
        quotes_after(written.drop_last()).flip_single()
    } else {
        quotes_after(written.drop_last()).flip_double()
    }
}

/// The number of entries of `written` that are `kind`.
pub open spec fn count_of(written: Seq<bool>, kind: bool) -> nat
    decreases written.len(),
{
    if written.len() == 0 {
        0
    } else {
        count_of(written.drop_last(), kind) + if written.last() == kind {
            1nat
        } else {
            0nat
        }
    }
}

/// Each kind of quote alternates between its opening and its closing form,
/// whatever was written of the other kind: behind an even number of single
/// quotes the next one opens, behind an odd number it closes, and likewise for
/// double quotes.
pub proof fn law_quotes_alternate(written: Seq<bool>)
    ensures
        quotes_after(written).single == if count_of(written, true) % 2 == 0 {
            Quotes::closed().single
        } else {
            Quotes::closed().single_after
        },
        quotes_after(written).single_after == if count_of(written, true) % 2 == 0 {
            Quotes::closed().single_after
        } else {
            Quotes::closed().single
        },
        quotes_after(written).double == if count_of(written, false) % 2 == 0 {
            Quotes::closed().double
        } else {
            Quotes::closed().double_after
        },
        quotes_after(written).double_after == if count_of(written, false) % 2 == 0 {
            Quotes::closed().double_after
        } else {
            Quotes::closed().double
        },
    decreases written.len(),
{
    if written.len() > 0 {
        law_quotes_alternate(written.drop_last());
    }
}

impl View for Punctuation {
    type V = Quotes;

    open spec fn view(&self) -> Quotes {
        Quotes {
            single: self.single_quotes.current()@,
            single_after: self.single_quotes.idle()@,
            double: self.double_quotes.current()@,
            double_after: self.double_quotes.idle()@,
        }
    }
}

/// The text that is left to read and the state of the switches.
pub struct Input<'a> {
    /// What is left of the text.
    pub romaji: &'a str,
    /// The characters that trigger the optional features.
    pub special_chars: &'a SpecialChars,
    /// The two kana; the current one is what syllables are written in.
    pub kanas: Switch<Kana>,
    /// The quotes, where punctuation is parsed.
    pub punctuation: Option<Punctuation>,
}

/// An `Input` as plain values.
pub struct Cursor {
    /// What is left of the text.
    pub romaji: Seq<char>,
    /// The characters that trigger the optional features.
    pub special_chars: SpecialChars,
    /// The kana that syllables are written in.
    pub kana: Kana,
    /// The kana that a toggle changes to.
    pub idle_kana: Kana,
    /// The quotes, where punctuation is parsed.
    pub quotes: Option<Quotes>,
}

impl Cursor {
    /// This cursor with `romaji` left to read.
    pub open spec fn at(self, romaji: Seq<char>) -> Cursor {
        Cursor { romaji, ..self }
    }

    /// This cursor with the two kana exchanged.
    pub open spec fn toggled(self) -> Cursor {
        Cursor { kana: self.idle_kana, idle_kana: self.kana, ..self }
    }

    /// Where the reading of `romaji` begins under `cfg`.
    pub open spec fn start(romaji: Seq<char>, cfg: Config) -> Cursor {
        let hiragana = Kana::Hiragana { show_prolongation: false };
        let katakana = Kana::Katakana { extended: cfg.extended_katakana };
        Cursor {
            romaji,
            special_chars: cfg.special_chars,
            kana: if cfg.start_with_katakana {
                katakana
            } else {
                hiragana
            },
            idle_kana: if cfg.start_with_katakana {
                hiragana
            } else {
                katakana
            },
            quotes: if cfg.parse_punctuation {
                Some(Quotes::closed())
            } else {
                None
            },
        }
    }
}

impl<'a> View for Input<'a> {
    type V = Cursor;

    open spec fn view(&self) -> Cursor {
        Cursor {
            romaji: self.romaji@,
            special_chars: *self.special_chars,
            kana: self.kanas.current(),
            idle_kana: self.kanas.idle(),
            quotes: match self.punctuation {
                Some(punctuation) => Some(punctuation@),
                None => None,
            },
        }
    }
}

impl<'a> Input<'a> {
    /// The input at the start of `romaji`.
    pub fn new(romaji: &'a str, cfg: &'a Config) -> (input: Self)
        ensures
            input@ == Cursor::start(romaji@, *cfg),
    {
        let punctuation = if cfg.parse_punctuation {
            Some(
                Punctuation {
                    single_quotes: Switch::new(SINGLE_QUOTES),
                    double_quotes: Switch::new(DOUBLE_QUOTES),
                },
            )
        } else {
            None
        };
        let mut kanas = Switch::new(
            [
                Kana::Hiragana { show_prolongation: false },
                Kana::Katakana { extended: cfg.extended_katakana },
            ],
        );
        if cfg.start_with_katakana {
            kanas.toggle();
        }
        Input { romaji, special_chars: &cfg.special_chars, kanas, punctuation }
    }
}

} // verus!
