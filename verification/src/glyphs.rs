//! The glyph tables: what each romaji key is written as.

pub mod chouonpu;
pub mod hiragana;
pub mod katakana;
pub mod punctuation;
pub mod sokuon;
