//! Random numbers for generated identifiers.

use vstd::prelude::*;

verus! {

/// Draws a `usize` from the thread-local generator with `rand::random`
/// (`thread_rng().gen()`); any value may come back, so nothing is claimed of it.
#[verifier::external_body]
pub(crate) fn random_usize() -> (r: usize) {
    rand::random::<usize>()
}

} // verus!
