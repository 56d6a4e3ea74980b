//! The one source of randomness: the scripted opponent's tile choice.

use vstd::prelude::*;

verus! {

/// Relies on `rand::random_range` over `0..bound`: it panics only on an
/// empty range, and the value it draws from the thread-local generator
/// always lies in the range. Nothing is assumed about which value comes
/// back.
#[verifier::external_body]
pub(crate) fn random_below(bound: usize) -> (r: usize)
    requires
        bound > 0,
    ensures
        r < bound,
{
    rand::random_range(0..bound)
}

} // verus!
