//! The one place where chance enters the game.

use rand::Rng;
use vstd::prelude::*;

verus! {

/// An index below `n`, drawn by `gen_range(0..n)` on the generator that
/// `rand::thread_rng()` hands out.
///
/// This is believed, not proved: `gen_range` returns a value of the range it
/// is given, and panics on an empty range, which `n > 0` rules out. Which
/// index comes back is left open.
#[verifier::external_body]
pub(crate) fn random_index(n: usize) -> (index: usize)
    requires
        n > 0,
    ensures
        index < n,
{
    rand::thread_rng().gen_range(0..n)
}

} // verus!
