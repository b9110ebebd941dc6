//! What a caller can configure: the kana to start with, the optional features
//! and the characters that trigger them.

use vstd::prelude::*;

verus! {

/// A feature that a character of the input triggers.
#[derive(Clone, Copy, Debug, PartialEq, Eq, Hash)]
pub enum CharFeature {
    /// Toggles between hiragana and katakana.
    KanaToggle,
    /// Toggles between kana and text that is taken over as it stands.
    RawTextToggle,
    /// Keeps a repeated vowel from being written as a prolongation.
    ResetProlongation,
    /// Writes the vowel that follows in its small form.
    SmallVowel,
    /// Writes a sokuon where no consonant is doubled.
    VirtualStop,
}

/// The character of each feature; a feature without one is switched off.
#[derive(Clone, Copy, Debug, PartialEq, Eq)]
pub struct SpecialChars {
    pub kana_toggle: Option<char>,
    pub raw_text_toggle: Option<char>,
    pub reset_prolongation: Option<char>,
    pub small_vowel: Option<char>,
    pub virtual_stop: Option<char>,
}

impl SpecialChars {
    /// The character that triggers `feature`, if it has one.
    pub open spec fn char_of(self, feature: CharFeature) -> Option<char> {
        match feature {
            CharFeature::KanaToggle => self.kana_toggle,
            CharFeature::RawTextToggle => self.raw_text_toggle,
            CharFeature::ResetProlongation => self.reset_prolongation,
            CharFeature::SmallVowel => self.small_vowel,
            CharFeature::VirtualStop => self.virtual_stop,
        }
    }

    /// These characters, but with `c` for `feature`.
    pub open spec fn with(self, feature: CharFeature, c: char) -> SpecialChars {
        match feature {
            CharFeature::KanaToggle => SpecialChars { kana_toggle: Some(c), ..self },
            CharFeature::RawTextToggle => SpecialChars { raw_text_toggle: Some(c), ..self },
            CharFeature::ResetProlongation => SpecialChars { reset_prolongation: Some(c), ..self },
            CharFeature::SmallVowel => SpecialChars { small_vowel: Some(c), ..self },
            CharFeature::VirtualStop => SpecialChars { virtual_stop: Some(c), ..self },
        }
    }

    /// No feature has a character.
    pub open spec fn none() -> SpecialChars {
        SpecialChars {
            kana_toggle: None,
            raw_text_toggle: None,
            reset_prolongation: None,
            small_vowel: None,
            virtual_stop: None,
        }
    }

    /// Every feature switched off.
    pub fn new() -> (chars: Self)
        ensures
            chars == SpecialChars::none(),
    {
        SpecialChars {
            kana_toggle: None,
            raw_text_toggle: None,
            reset_prolongation: None,
            small_vowel: None,
            virtual_stop: None,
        }
    }

    /// Gives `feature` the character `c` and returns the one it had.
    pub fn insert(&mut self, feature: CharFeature, c: char) -> (before: Option<char>)
        ensures
            before == old(self).char_of(feature),
            *final(self) == old(self).with(feature, c),
    {
        let before = self.get(&feature);
        match feature {
            CharFeature::KanaToggle => {
                self.kana_toggle = Some(c);
            },
            CharFeature::RawTextToggle => {
                self.raw_text_toggle = Some(c);
            },
            CharFeature::ResetProlongation => {
                self.reset_prolongation = Some(c);
            },
            CharFeature::SmallVowel => {
                self.small_vowel = Some(c);
            },
            CharFeature::VirtualStop => {
                self.virtual_stop = Some(c);
            },
        }
        before
    }

    /// The character that triggers `feature`, if it has one.
    pub fn get(&self, feature: &CharFeature) -> (c: Option<char>)
        ensures
            c == self.char_of(*feature),
    {
        match feature {
            CharFeature::KanaToggle => self.kana_toggle,
            CharFeature::RawTextToggle => self.raw_text_toggle,
            CharFeature::ResetProlongation => self.reset_prolongation,
            CharFeature::SmallVowel => self.small_vowel,
            CharFeature::VirtualStop => self.virtual_stop,
        }
    }
}

impl Default for SpecialChars {
    fn default() -> (chars: Self)
        ensures
            chars == SpecialChars::none(),
    {
        SpecialChars::new()
    }
}

/// How a text is transliterated.
#[derive(Clone, Copy, Debug, PartialEq, Eq)]
pub struct Config {
    /// Start in katakana instead of hiragana.
    pub start_with_katakana: bool,
    /// Use the extended katakana syllabary.
    pub extended_katakana: bool,
    /// Write punctuation marks in their full-width form.
    pub parse_punctuation: bool,
    /// The characters that trigger the optional features.
    pub special_chars: SpecialChars,
}

impl Config {
    /// Hiragana, with every feature switched off.
    pub open spec fn plain() -> Config {
        Config {
            start_with_katakana: false,
            extended_katakana: false,
            parse_punctuation: false,
            special_chars: SpecialChars::none(),
        }
    }
}

impl Default for Config {
    fn default() -> (cfg: Self)
        ensures
            cfg == Config::plain(),
    {
        Config {
            start_with_katakana: false,
            extended_katakana: false,
            parse_punctuation: false,
            special_chars: SpecialChars::new(),
        }
    }
}

} // verus!
