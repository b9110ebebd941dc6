//! The doubled vowels that a chouonpu stands for.

use vstd::prelude::*;

verus! {

/// The mark that lengthens the vowel before it.
pub const CHOUONPU_GRAPH: &'static str = "ー";

/// The vowel pairs whose second letter is written as a chouonpu.
pub const CHOUONPU_MATCHES: [&'static str; 5] = ["aa", "ii", "uu", "ee", "oo"];

} // verus!
