//! Hiragana and katakana write a text alike: fragment by fragment, what the one
//! writes is the counterpart of what the other writes.

use vstd::prelude::*;
use crate::config::Config;
use crate::fsm::{step, window, State};
use crate::glyphs::chouonpu::CHOUONPU_MATCHES;
use crate::glyphs::hiragana;
use crate::glyphs::katakana;
use crate::input::Cursor;
use crate::kana::{lemma_kana_know_the_same, syllable_glyph, Kana};
use crate::table::items_of;
use crate::text::lowercase_of;
use crate::transliterate::{
    lemma_step_decreases, lemma_without_triggers_behind, lemma_without_triggers_start, level, run,
    transliteration, without_triggers,
};
use crate::utf8::prefix;

verus! {

/// What the machine writes from `state` at `cursor` until it stops, one entry
/// for each step.
pub open spec fn fragments(state: State, cursor: Cursor) -> Seq<Seq<char>>
    decreases cursor.romaji.len(), level(state, cursor),
    via fragments_decreases
{
    match step(state, cursor) {
        Some((fragment, left, next)) => seq![fragment] + fragments(next, left),
        None => Seq::empty(),
    }
}

#[via_fn]
proof fn fragments_decreases(state: State, cursor: Cursor) {
    lemma_step_decreases(state, cursor);
}

/// The fragments, one behind the other.
pub open spec fn joined(fragments: Seq<Seq<char>>) -> Seq<char>
    decreases fragments.len(),
{
    if fragments.len() == 0 {
        Seq::empty()
    } else {
        fragments[0] + joined(fragments.drop_first())
    }
}

/// What the machine writes is its fragments, joined.
pub proof fn lemma_run_is_joined(state: State, cursor: Cursor)
    ensures
        run(state, cursor) == joined(fragments(state, cursor)),
    decreases cursor.romaji.len(), level(state, cursor),
{
    lemma_step_decreases(state, cursor);
    match step(state, cursor) {
        Some((fragment, left, next)) => {
            lemma_run_is_joined(next, left);
            let all = fragments(state, cursor);
            assert(all.drop_first() =~= fragments(next, left));
            assert(all[0] == fragment);
        },
        None => {},
    }
}

/// Hiragana as the transliteration uses it.
pub open spec fn plain_hiragana() -> Kana {
    Kana::Hiragana { show_prolongation: false }
}

/// Katakana without its extension.
pub open spec fn plain_katakana() -> Kana {
    Kana::Katakana { extended: false }
}

/// Whether the katakana fragment `k` is the counterpart of the hiragana
/// fragment `h`: both are the same text (nothing, a punctuation mark, or a
/// character kept as it stands), or both are the glyph of one syllable, or
/// both are the sokuon.
pub open spec fn counterparts(h: Seq<char>, k: Seq<char>) -> bool {
    ||| h == k
    ||| exists|key: Seq<char>| #[trigger]
        syllable_glyph(plain_hiragana(), key) == Some(h) && syllable_glyph(plain_katakana(), key)
            == Some(k)
    ||| (h == hiragana::SOKUON_GRAPH@ && k == katakana::SOKUON_GRAPH@)
}

/// Whether two runs wrote as many fragments, each the counterpart of the
/// other's.
pub open spec fn paired(hs: Seq<Seq<char>>, ks: Seq<Seq<char>>) -> bool {
    hs.len() == ks.len() && forall|i: int| 0 <= i < hs.len() ==> counterparts(#[trigger] hs[i], ks[i])
}

/// Whether no two characters of `text` that follow each other are a doubled
/// vowel, in whatever case.
pub open spec fn no_long_vowels(text: Seq<char>) -> bool
    decreases text.len(),
{
    text.len() == 0 || (!items_of(CHOUONPU_MATCHES@).contains(lowercase_of(prefix(text, 2)))
        && no_long_vowels(text.skip(1)))
}

/// A text without long vowels has none behind any of its characters.
pub proof fn lemma_no_long_vowels_behind(text: Seq<char>, n: int)
    requires
        no_long_vowels(text),
        0 <= n <= text.len(),
    ensures
        no_long_vowels(text.skip(n)),
    decreases n,
{
    if n == 0 {
        assert(text.skip(0) =~= text);
    } else {
        lemma_no_long_vowels_behind(text.skip(1), n - 1);
        assert(text.skip(1).skip(n - 1) =~= text.skip(n));
    }
}

/// Whether `h` and `k` stand at the same place of the same text under the same
/// configuration, `h` in hiragana and `k` in katakana.
pub open spec fn mirrored(h: Cursor, k: Cursor) -> bool {
    &&& h.romaji == k.romaji
    &&& h.quotes == k.quotes
    &&& h.special_chars == k.special_chars
    &&& h.kana == plain_hiragana()
    &&& k.kana == plain_katakana()
}

/// From the same state at mirrored cursors the machine takes the same steps in
/// both kana, and writes counterparts.
pub proof fn lemma_lockstep(state: State, h: Cursor, k: Cursor)
    requires
        mirrored(h, k),
        without_triggers(h.romaji, h.special_chars),
        no_long_vowels(h.romaji),
    ensures
        paired(fragments(state, h), fragments(state, k)),
    decreases h.romaji.len(), level(state, h),
{
    lemma_step_decreases(state, h);
    let text = h.romaji;
    lemma_without_triggers_start(text, h.special_chars);
    let key = lowercase_of(prefix(text, window(state)));
    lemma_kana_know_the_same(key);
    match step(state, h) {
        Some((written_h, left_h, next)) => {
            assert(step(state, k) is Some);
            let (written_k, left_k, next_k) = step(state, k)->0;
            assert(next_k == next);
            assert(mirrored(left_h, left_k));
            assert(counterparts(written_h, written_k)) by {
                if state is Long || state is Medium || state is Short || state is Tiny {
                    if syllable_glyph(plain_hiragana(), key) is Some {
                        assert(syllable_glyph(plain_hiragana(), key) == Some(written_h));
                        assert(syllable_glyph(plain_katakana(), key) == Some(written_k));
                    }
                }
            }
            let read = text.len() - left_h.romaji.len();
            assert(left_h.romaji =~= text.skip(read));
            lemma_no_long_vowels_behind(text, read);
            lemma_without_triggers_behind(text, h.special_chars, read);
            lemma_lockstep(next, left_h, left_k);
            let hs = fragments(state, h);
            let ks = fragments(state, k);
            let hs_rest = fragments(next, left_h);
            let ks_rest = fragments(next, left_k);
            assert(hs =~= seq![written_h] + hs_rest);
            assert(ks =~= seq![written_k] + ks_rest);
            assert forall|i: int| 0 <= i < hs.len() implies counterparts(#[trigger] hs[i], ks[i]) by {
                if i > 0 {
                    assert(hs[i] == hs_rest[i - 1]);
                    assert(ks[i] == ks_rest[i - 1]);
                }
            }
        },
        None => {
            assert(step(state, k) is None);
        },
    }
}

/// The configuration `cfg`, but starting in hiragana.
pub open spec fn in_hiragana(cfg: Config) -> Config {
    Config { start_with_katakana: false, ..cfg }
}

/// The configuration `cfg`, but starting in katakana.
pub open spec fn in_katakana(cfg: Config) -> Config {
    Config { start_with_katakana: true, ..cfg }
}

/// Hiragana and katakana write a text alike. Without the extended syllabary,
/// a text that holds no trigger character and no doubled vowel is written in
/// as many fragments by both, and each katakana fragment is the counterpart of
/// the hiragana fragment at its place: the same text, the glyph of the same
/// syllable, or the sokuon.
pub proof fn law_kana_symmetry(text: Seq<char>, cfg: Config)
    requires
        without_triggers(text, cfg.special_chars),
        !cfg.extended_katakana,
        no_long_vowels(text),
    ensures
        transliteration(text, in_hiragana(cfg)) == joined(
            fragments(State::Init, Cursor::start(text, in_hiragana(cfg))),
        ),
        transliteration(text, in_katakana(cfg)) == joined(
            fragments(State::Init, Cursor::start(text, in_katakana(cfg))),
        ),
        paired(
            fragments(State::Init, Cursor::start(text, in_hiragana(cfg))),
            fragments(State::Init, Cursor::start(text, in_katakana(cfg))),
        ),
{
    let h = Cursor::start(text, in_hiragana(cfg));
    let k = Cursor::start(text, in_katakana(cfg));
    lemma_run_is_joined(State::Init, h);
    lemma_run_is_joined(State::Init, k);
    lemma_lockstep(State::Init, h, k);
}

/// The key of the syllable that the machine writes in `state` at `cursor`: the
/// window in lower case, where the state looks for a syllable and the kana
/// knows it.
pub open spec fn syllable_read(state: State, cursor: Cursor) -> Option<Seq<char>> {
    let key = lowercase_of(prefix(cursor.romaji, window(state)));
    if (state is Long || state is Medium || state is Short || state is Tiny) && syllable_glyph(
        cursor.kana,
        key,
    ) is Some {
        Some(key)
    } else {
        None
    }
}

/// The keys of the syllables that the machine writes from `state` at `cursor`
/// until it stops, in the order in which it writes them.
pub open spec fn syllables(state: State, cursor: Cursor) -> Seq<Seq<char>>
    decreases cursor.romaji.len(), level(state, cursor),
    via syllables_decreases
{
    match step(state, cursor) {
        Some((_, left, next)) => match syllable_read(state, cursor) {
            Some(key) => seq![key] + syllables(next, left),
            None => syllables(next, left),
        },
        None => Seq::empty(),
    }
}

#[via_fn]
proof fn syllables_decreases(state: State, cursor: Cursor) {
    lemma_step_decreases(state, cursor);
}

/// Whether the machine writes nothing but syllables from `state` at `cursor`:
/// no sokuon, no mark, and no character as it stands.
pub open spec fn only_syllables(state: State, cursor: Cursor) -> bool
    decreases cursor.romaji.len(), level(state, cursor),
    via only_syllables_decreases
{
    match step(state, cursor) {
        Some((fragment, left, next)) => (syllable_read(state, cursor) is Some || fragment.len()
            == 0) && only_syllables(next, left),
        None => true,
    }
}

#[via_fn]
proof fn only_syllables_decreases(state: State, cursor: Cursor) {
    lemma_step_decreases(state, cursor);
}

/// The glyphs that `kana` has for `keys`, one behind the other.
pub open spec fn glyphs(kana: Kana, keys: Seq<Seq<char>>) -> Seq<char>
    decreases keys.len(),
{
    if keys.len() == 0 {
        Seq::empty()
    } else {
        (match syllable_glyph(kana, keys[0]) {
            Some(glyph) => glyph,
            None => Seq::empty(),
        }) + glyphs(kana, keys.drop_first())
    }
}

/// Where the machine writes nothing but syllables and reads no trigger
/// character, what it writes is the glyphs of the syllables it reads.
pub proof fn lemma_run_is_glyphs(state: State, cursor: Cursor)
    requires
        without_triggers(cursor.romaji, cursor.special_chars),
        only_syllables(state, cursor),
    ensures
        run(state, cursor) == glyphs(cursor.kana, syllables(state, cursor)),
    decreases cursor.romaji.len(), level(state, cursor),
{
    lemma_step_decreases(state, cursor);
    let text = cursor.romaji;
    lemma_without_triggers_start(text, cursor.special_chars);
    match step(state, cursor) {
        Some((fragment, left, next)) => {
            let read = text.len() - left.romaji.len();
            assert(left.romaji =~= text.skip(read));
            lemma_without_triggers_behind(text, cursor.special_chars, read);
            assert(left.kana == cursor.kana);
            lemma_run_is_glyphs(next, left);
            let rest = syllables(next, left);
            match syllable_read(state, cursor) {
                Some(key) => {
                    let keys = syllables(state, cursor);
                    assert(keys =~= seq![key] + rest);
                    assert(keys[0] == key);
                    assert(keys.drop_first() =~= rest);
                    assert(syllable_glyph(cursor.kana, key) == Some(fragment));
                },
                None => {
                    assert(fragment + run(next, left) =~= run(next, left));
                },
            }
        },
        None => {},
    }
}

/// From the same state at mirrored cursors the machine reads the same
/// syllables in both kana, and where it writes nothing but syllables in
/// hiragana, it writes nothing but syllables in katakana.
pub proof fn lemma_same_syllables(state: State, h: Cursor, k: Cursor)
    requires
        mirrored(h, k),
        without_triggers(h.romaji, h.special_chars),
        no_long_vowels(h.romaji),
    ensures
        syllables(state, h) == syllables(state, k),
        only_syllables(state, h) ==> only_syllables(state, k),
    decreases h.romaji.len(), level(state, h),
{
    lemma_step_decreases(state, h);
    let text = h.romaji;
    let key = lowercase_of(prefix(text, window(state)));
    lemma_kana_know_the_same(key);
    lemma_without_triggers_start(text, h.special_chars);
    reveal_strlit("っ");
    reveal_strlit("ッ");
    match step(state, h) {
        Some((written_h, left_h, next)) => {
            assert(step(state, k) is Some);
            let (written_k, left_k, next_k) = step(state, k)->0;
            assert(next_k == next);
            assert(mirrored(left_h, left_k));
            assert(syllable_read(state, h) == syllable_read(state, k));
            assert(syllable_read(state, h) is None && written_h.len() == 0 ==> written_k.len()
                == 0);
            let read = text.len() - left_h.romaji.len();
            assert(left_h.romaji =~= text.skip(read));
            lemma_no_long_vowels_behind(text, read);
            lemma_without_triggers_behind(text, h.special_chars, read);
            lemma_same_syllables(next, left_h, left_k);
        },
        None => {
            assert(step(state, k) is None);
        },
    }
}

/// Hiragana and katakana write the same syllables, glyph for glyph. Without
/// the extended syllabary, where a text holds no trigger character and no
/// doubled vowel and is written in hiragana as nothing but syllables, both
/// kana read the same keys from it, and each writes its own glyphs for these
/// keys, one behind the other.
pub proof fn law_same_syllables(text: Seq<char>, cfg: Config)
    requires
        without_triggers(text, cfg.special_chars),
        !cfg.extended_katakana,
        no_long_vowels(text),
        only_syllables(State::Init, Cursor::start(text, in_hiragana(cfg))),
    ensures
        transliteration(text, in_hiragana(cfg)) == glyphs(
            plain_hiragana(),
            syllables(State::Init, Cursor::start(text, in_hiragana(cfg))),
        ),
        transliteration(text, in_katakana(cfg)) == glyphs(
            plain_katakana(),
            syllables(State::Init, Cursor::start(text, in_hiragana(cfg))),
        ),
{
    let h = Cursor::start(text, in_hiragana(cfg));
    let k = Cursor::start(text, in_katakana(cfg));
    lemma_same_syllables(State::Init, h, k);
    lemma_run_is_glyphs(State::Init, h);
    lemma_run_is_glyphs(State::Init, k);
}

} // verus!
