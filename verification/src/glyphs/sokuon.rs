//! The doubled consonants that a sokuon stands for.

use vstd::prelude::*;

verus! {

/// The consonant pairs whose first letter is written as a sokuon.
pub const SOKUON_MATCHES: [&'static str; 7] = ["kk", "cc", "dd", "gg", "pp", "ss", "tt"];

} // verus!
