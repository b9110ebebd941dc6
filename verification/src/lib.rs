//! Transliteration of romanized Japanese (romaji) into hiragana and katakana.
//!
//! `transliterate` writes a text in kana with the syllabaries that the library
//! holds; `fsm` is the state machine behind it. `machine` and `section` are
//! two parsers over kana tables that the caller supplies.

pub mod config;
pub mod fsm;
pub mod glyphs;
pub mod input;
pub mod kana;
pub mod machine;
pub mod section;
pub mod states;
pub mod switch;
pub mod symmetry;
pub mod table;
pub mod text;
pub mod transliterate;
pub mod utf8;
pub mod util;

pub use config::{CharFeature, Config, SpecialChars};
pub use transliterate::transliterate;
