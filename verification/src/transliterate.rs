//! The driver: runs the state machine over a text and joins what it writes.

use vstd::prelude::*;
use vstd::string::*;
use crate::config::{Config, SpecialChars};
use crate::fsm::{step, State};
use crate::input::{Cursor, Input};
use crate::glyphs::chouonpu::CHOUONPU_MATCHES;
use crate::glyphs::hiragana;
use crate::glyphs::katakana;
use crate::glyphs::sokuon::SOKUON_MATCHES;
use crate::kana::{chouonpu_glyph, sokuon_glyph, syllable_glyph, Kana};
use crate::table::{entries_of, glyph_of, items_of};
use crate::text::{
    begins_with_some, free_of, lemma_free_of_behind, lemma_free_of_start, lowercase_of,
};
use crate::utf8::{prefix, suffix};

verus! {

/// How far a state is from reading a character, counted in steps that read
/// nothing. A state that always reads has rank 0; a state that may hand on to
/// another one ranks above it.
pub open spec fn rank(state: State) -> nat
    decreases state,
{
    match state {
        State::Fallback | State::Chouonpu | State::RawText(_) => 0,
        State::VirtualSokuon => 1,
        State::Tiny => 3,
        State::Short => 5,
        State::SmallVowel => 6,
        State::Sokuon => 7,
        State::Medium => 9,
        State::Long => 11,
        State::SizeRouter => 12,
        State::KanaToggle => 13,
        State::RawToggle => 14,
        State::Init => 15,
        State::Punctuation(size, next) => rank(*next) + if size == 0 {
            17nat
        } else {
            1nat
        },
    }
}

/// The rank of a state at a cursor. `Init` at the end of the text is where the
/// machine stops, below every other place.
pub open spec fn level(state: State, cursor: Cursor) -> nat {
    if state is Init && cursor.romaji.len() == 0 {
        0
    } else {
        rank(state) + 1
    }
}

/// Every step either reads a character or moves to a lower level: the machine
/// cannot run forever.
pub proof fn lemma_step_decreases(state: State, cursor: Cursor)
    ensures
        match step(state, cursor) {
            Some((_, left, next)) => left.romaji.len() < cursor.romaji.len() || (left.romaji.len()
                == cursor.romaji.len() && level(next, left) < level(state, cursor)),
            None => true,
        },
{
    reveal_with_fuel(rank, 3);
}

/// What the machine writes from `state` at `cursor` until it stops.
pub open spec fn run(state: State, cursor: Cursor) -> Seq<char>
    decreases cursor.romaji.len(), level(state, cursor),
    via run_decreases
{
    match step(state, cursor) {
        Some((fragment, left, next)) => fragment + run(next, left),
        None => Seq::empty(),
    }
}

#[via_fn]
proof fn run_decreases(state: State, cursor: Cursor) {
    lemma_step_decreases(state, cursor);
}

/// The kana that `romaji` is written as under `cfg`.
pub open spec fn transliteration(romaji: Seq<char>, cfg: Config) -> Seq<char> {
    run(State::Init, Cursor::start(romaji, cfg))
}

/// Writes `romaji` in kana. The case of the romaji does not matter.
pub fn transliterate(romaji: &str, cfg: &Config) -> (kana: String)
    ensures
        kana@ == transliteration(romaji@, *cfg),
        romaji@.len() == 0 ==> kana@.len() == 0,
{
    let mut state = State::Init;
    let mut input = Input::new(romaji, cfg);
    let mut result = String::new();
    loop
        invariant
            result@ + run(state, input@) == transliteration(romaji@, *cfg),
        decreases input@.romaji.len(), level(state, input@),
    {
        proof {
            lemma_step_decreases(state, input@);
        }
        let ghost written = result@;
        match state.next(input) {
            Some((fragment, left, next)) => {
                result.append(fragment);
                proof {
                    assert(written + (fragment@ + run(next, left@)) =~= (written + fragment@)
                        + run(next, left@));
                }
                state = next;
                input = left;
            },
            None => {
                proof {
                    assert(written + Seq::<char>::empty() =~= written);
                }
                return result;
            },
        }
    }
}

/// An empty text is written as an empty text, whatever the configuration.
pub proof fn law_empty_text(cfg: Config)
    ensures
        transliteration(Seq::empty(), cfg) == Seq::<char>::empty(),
{
}

/// Whether `kana` has nothing to write for `window`: no syllable, no sokuon
/// and no chouonpu.
pub open spec fn unknown(kana: Kana, window: Seq<char>) -> bool {
    let key = lowercase_of(window);
    syllable_glyph(kana, key) is None && sokuon_glyph(kana, key) is None && chouonpu_glyph(
        kana,
        key,
    ) is None
}

/// Whether `kana` has nothing to write for any window of up to four characters,
/// wherever in `text` the window begins.
pub open spec fn untranslatable(kana: Kana, text: Seq<char>) -> bool
    decreases text.len(),
{
    text.len() == 0 || (unknown(kana, prefix(text, 1)) && unknown(kana, prefix(text, 2))
        && unknown(kana, prefix(text, 3)) && unknown(kana, prefix(text, 4)) && untranslatable(
        kana,
        text.skip(1),
    ))
}

/// Whether `text` holds none of the characters that trigger a feature.
pub open spec fn without_triggers(text: Seq<char>, chars: SpecialChars) -> bool {
    free_of(text, chars.kana_toggle) && free_of(text, chars.raw_text_toggle) && free_of(
        text,
        chars.reset_prolongation,
    ) && free_of(text, chars.small_vowel) && free_of(text, chars.virtual_stop)
}

/// A text without trigger characters has none behind any number of its
/// characters either.
pub proof fn lemma_without_triggers_behind(text: Seq<char>, chars: SpecialChars, n: int)
    requires
        without_triggers(text, chars),
        0 <= n <= text.len(),
    ensures
        without_triggers(text.skip(n), chars),
{
    lemma_free_of_behind(text, chars.kana_toggle, n);
    lemma_free_of_behind(text, chars.raw_text_toggle, n);
    lemma_free_of_behind(text, chars.reset_prolongation, n);
    lemma_free_of_behind(text, chars.small_vowel, n);
    lemma_free_of_behind(text, chars.virtual_stop, n);
}

/// In a text without trigger characters no feature is triggered at the start.
pub proof fn lemma_without_triggers_start(text: Seq<char>, chars: SpecialChars)
    requires
        without_triggers(text, chars),
    ensures
        !begins_with_some(text, chars.kana_toggle),
        !begins_with_some(text, chars.raw_text_toggle),
        !begins_with_some(suffix(text, 1), chars.reset_prolongation),
        !begins_with_some(prefix(text, 2), chars.small_vowel),
        !begins_with_some(text, chars.virtual_stop),
{
    lemma_free_of_start(text, chars.kana_toggle);
    lemma_free_of_start(text, chars.raw_text_toggle);
    lemma_free_of_start(text, chars.reset_prolongation);
    lemma_free_of_start(text, chars.small_vowel);
    lemma_free_of_start(text, chars.virtual_stop);
}

/// From `Init`, a text in which nothing is known and nothing triggers a feature
/// is written as it stands.
proof fn lemma_untranslatable_run(cursor: Cursor)
    requires
        cursor.quotes is None,
        without_triggers(cursor.romaji, cursor.special_chars),
        untranslatable(cursor.kana, cursor.romaji),
    ensures
        run(State::Init, cursor) == cursor.romaji,
    decreases cursor.romaji.len(),
{
    let text = cursor.romaji;
    let chars = cursor.special_chars;
    if text.len() == 0 {
        assert(run(State::Init, cursor) =~= text);
    } else {
        let rest = cursor.at(text.skip(1));
        lemma_without_triggers_start(text, chars);
        lemma_without_triggers_behind(text, chars, 1);
        lemma_untranslatable_run(rest);
        assert(suffix(text, 1) == text.skip(1));
        assert(prefix(text, 1) + text.skip(1) =~= text);
        // The fallback writes the first character; every state before it hands
        // the text on, one to the next, without writing.
        assert(run(State::Fallback, cursor) =~= text);
        assert(run(State::VirtualSokuon, cursor) =~= text);
        assert(run(State::Tiny, cursor) =~= text);
        assert(run(State::Short, cursor) =~= text);
        assert(run(State::SmallVowel, cursor) =~= text);
        assert(run(State::Sokuon, cursor) =~= text);
        assert(run(State::Medium, cursor) =~= text);
        assert(run(State::Long, cursor) =~= text);
        assert(run(State::SizeRouter, cursor) =~= text);
        assert(run(State::KanaToggle, cursor) =~= text);
        assert(run(State::RawToggle, cursor) =~= text);
        assert(run(State::Init, cursor) =~= text);
    }
}

/// A text is written as it stands where punctuation is not parsed, the text
/// holds none of the characters that trigger a feature, and the kana that the
/// transliteration starts in knows no window of the text, in whatever case.
pub proof fn law_untranslatable_text_is_kept(text: Seq<char>, cfg: Config)
    requires
        !cfg.parse_punctuation,
        without_triggers(text, cfg.special_chars),
        untranslatable(Cursor::start(text, cfg).kana, text),
    ensures
        transliteration(text, cfg) == text,
{
    lemma_untranslatable_run(Cursor::start(text, cfg));
}

/// Whether the character `c` stands in one of `keys`.
pub open spec fn occurs_in(keys: Seq<Seq<char>>, c: char) -> bool {
    exists|j: int, i: int| 0 <= j < keys.len() && 0 <= i < keys[j].len() && #[trigger] keys[j][i] == c
}

/// The keys of a table.
pub open spec fn keys_of(entries: Seq<(Seq<char>, Seq<char>)>) -> Seq<Seq<char>> {
    entries.map_values(|entry: (Seq<char>, Seq<char>)| entry.0)
}

/// Whether the character `c` stands in a key of one of the syllabaries or in
/// one of the doubled letters.
pub open spec fn romaji_letter(c: char) -> bool {
    ||| occurs_in(keys_of(entries_of(hiragana::SYLLABARY@)), c)
    ||| occurs_in(keys_of(entries_of(katakana::SYLLABARY@)), c)
    ||| occurs_in(keys_of(entries_of(katakana::EXTENDED_SYLLABARY@)), c)
    ||| occurs_in(items_of(SOKUON_MATCHES@), c)
    ||| occurs_in(items_of(CHOUONPU_MATCHES@), c)
}

/// Whether the lower-case form of each window of up to four characters of
/// `text` is not empty and is made of characters of the lower-case form of the
/// whole text.
pub open spec fn folds_by_window(text: Seq<char>) -> bool {
    forall|at: int, size: int|
        0 <= at < text.len() && 1 <= size <= 4 ==> {
            let folded = #[trigger] lowercase_of(prefix(text.skip(at), size));
            folded.len() > 0 && forall|i: int|
                0 <= i < folded.len() ==> lowercase_of(text).contains(#[trigger] folded[i])
        }
}

/// Whether no character of the lower-case form of `text` is a romaji letter.
pub open spec fn without_romaji(text: Seq<char>) -> bool {
    forall|i: int|
        0 <= i < lowercase_of(text).len() ==> !romaji_letter(#[trigger] lowercase_of(text)[i])
}

/// A key that a table knows is one of its keys.
pub proof fn lemma_known_key(entries: Seq<(Seq<char>, Seq<char>)>, key: Seq<char>)
    requires
        glyph_of(entries, key) is Some,
    ensures
        exists|j: int| 0 <= j < entries.len() && #[trigger] keys_of(entries)[j] == key,
    decreases entries.len(),
{
    if entries.last().0 == key {
        assert(keys_of(entries)[entries.len() - 1] == key);
    } else {
        lemma_known_key(entries.drop_last(), key);
        let j = choose|j: int|
            0 <= j < entries.drop_last().len() && #[trigger] keys_of(entries.drop_last())[j]
                == key;
        assert(keys_of(entries)[j] == key);
    }
}

/// No kana knows a window whose lower-case form is not empty and holds no
/// romaji letter.
proof fn lemma_unknown_without_romaji(kana: Kana, window: Seq<char>)
    requires
        lowercase_of(window).len() > 0,
        !romaji_letter(lowercase_of(window)[0]),
    ensures
        unknown(kana, window),
{
    let key = lowercase_of(window);
    let first = key[0];
    let plain = entries_of(hiragana::SYLLABARY@);
    let angular = entries_of(katakana::SYLLABARY@);
    let extended = entries_of(katakana::EXTENDED_SYLLABARY@);
    if glyph_of(plain, key) is Some {
        lemma_known_key(plain, key);
        let j = choose|j: int| 0 <= j < plain.len() && #[trigger] keys_of(plain)[j] == key;
        assert(keys_of(plain)[j][0] == first);
    }
    if glyph_of(angular, key) is Some {
        lemma_known_key(angular, key);
        let j = choose|j: int| 0 <= j < angular.len() && #[trigger] keys_of(angular)[j] == key;
        assert(keys_of(angular)[j][0] == first);
    }
    if glyph_of(extended, key) is Some {
        lemma_known_key(extended, key);
        let j = choose|j: int| 0 <= j < extended.len() && #[trigger] keys_of(extended)[j] == key;
        assert(keys_of(extended)[j][0] == first);
    }
    let doubled = items_of(SOKUON_MATCHES@);
    if doubled.contains(key) {
        let j = choose|j: int| 0 <= j < doubled.len() && doubled[j] == key;
        assert(doubled[j][0] == first);
    }
    let long = items_of(CHOUONPU_MATCHES@);
    if long.contains(key) {
        let j = choose|j: int| 0 <= j < long.len() && long[j] == key;
        assert(long[j][0] == first);
    }
}

/// Behind any number of its characters, a text that folds by window and holds
/// no romaji letter is one that no kana knows anything in.
proof fn lemma_untranslatable_behind(kana: Kana, text: Seq<char>, at: int)
    requires
        folds_by_window(text),
        without_romaji(text),
        0 <= at <= text.len(),
    ensures
        untranslatable(kana, text.skip(at)),
    decreases text.len() - at,
{
    if at < text.len() {
        let rest = text.skip(at);
        assert forall|size: int| 1 <= size <= 4 implies unknown(kana, prefix(rest, size)) by {
            let folded = lowercase_of(prefix(text.skip(at), size));
            assert(folded.len() > 0);
            assert(lowercase_of(text).contains(folded[0]));
            lemma_unknown_without_romaji(kana, prefix(rest, size));
        }
        lemma_untranslatable_behind(kana, text, at + 1);
        assert(rest.skip(1) =~= text.skip(at + 1));
    }
}

/// A text that holds no romaji letter and no trigger character is written as
/// it stands, where punctuation is not parsed. The romaji letters are looked
/// for in the lower-case form of the whole text; that this form holds what
/// the lower-case forms of the windows hold is a premise, since nothing is
/// stated of how a text is folded.
pub proof fn law_text_without_romaji_is_kept(text: Seq<char>, cfg: Config)
    requires
        !cfg.parse_punctuation,
        without_triggers(text, cfg.special_chars),
        without_romaji(text),
        folds_by_window(text),
    ensures
        transliteration(text, cfg) == text,
{
    lemma_untranslatable_behind(Cursor::start(text, cfg).kana, text, 0);
    assert(text.skip(0) =~= text);
    law_untranslatable_text_is_kept(text, cfg);
}

} // verus!
