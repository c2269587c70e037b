//! Busy waiting.

use vstd::prelude::*;

verus! {

/// Spins for about `n` instructions: the loop body compiles to two
/// instructions, so it runs `n / 2` times.
pub fn delay(n: usize) {
    let rounds = n / 2;
    let mut i: usize = 0;
    while i < rounds
        invariant
            i <= rounds,
        decreases rounds - i,
    {
        i += 1;
    }
}

} // verus!
