//! Small building blocks.

use vstd::prelude::*;

verus! {

/// Two values of one type, for a state and the state one frame before it.
///
/// Which of the two is the newer one is for the owner to say.
#[derive(Debug, Clone, Copy, Default)]
pub struct Double<T> {
    pub a: T,
    pub b: T,
}

/// Whether bit number `bit` of `word` is one.
pub open spec fn bit_is_set(word: u32, bit: u32) -> bool {
    word & (1u32 << bit) != 0
}

} // verus!
