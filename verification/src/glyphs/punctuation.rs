//! Full-width punctuation marks and the two kinds of quotes.

use vstd::prelude::*;

verus! {

/// The full-width form of each punctuation mark.
pub const MARKS: [(&'static str, &'static str); 15] = [
    (">", "】"),
    ("<", "【"),
    ("]", "］"),
    ("[", "［"),
    ("(", "（"),
    (")", "）"),
    ("{", "｛"),
    ("}", "｝"),
    ("...", "…"),
    (",", "、"),
    ("=", "＝"),
    (".", "。"),
    (":", "："),
    ("!", "！"),
    ("?", "？"),
];

/// The opening and the closing form of a single quote.
pub const SINGLE_QUOTES: [&'static str; 2] = ["「", "」"];

/// The opening and the closing form of a double quote.
pub const DOUBLE_QUOTES: [&'static str; 2] = ["『", "』"];

} // verus!
