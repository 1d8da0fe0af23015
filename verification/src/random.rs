//! The source of chance that places the ant of a new world.

use vstd::prelude::*;

verus! {

/// Calls `rand::random::<u64>()`, which draws from the generator of the
/// current thread. Nothing is claimed of the number: two calls may differ,
/// and every value of the type may come back.
#[verifier::external_body]
pub(crate) fn random_u64() -> u64 {
    rand::random::<u64>()
}

} // verus!
