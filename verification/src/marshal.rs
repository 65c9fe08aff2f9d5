//! Truth values at the boundary, where they travel as words.

use vstd::prelude::*;

verus! {

/// The word that stands for a truth value: 1 for true, 0 for false.
pub fn flag(value: bool) -> (word: u32)
    ensures
        word == if value { 1u32 } else { 0u32 },
{
    if value {
        1
    } else {
        0
    }
}

/// The truth value that a word stands for: true for 1, false for any other.
pub fn truth(word: u32) -> (value: bool)
    ensures
        value == (word == 1),
{
    word == 1
}

} // verus!
