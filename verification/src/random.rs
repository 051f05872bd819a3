//! The one source of chance: an index drawn at random.

use vstd::prelude::*;
use rand::Rng;

verus! {

/// Draws an index below `count` with `rand::thread_rng().gen_range(0..count)`.
///
/// `gen_range` samples the half-open range and panics on an empty one, so
/// `count` must not be zero. Which index comes back is up to the generator:
/// only the bounds are claimed, and two calls may differ. Nothing is claimed
/// of how the draws are distributed. (`thread_rng` sets its generator up
/// from the operating system's on first use in a thread and panics if that
/// fails.)
#[verifier::external_body]
pub(crate) fn random_index(count: usize) -> (index: usize)
    requires
        count > 0,
    ensures
        index < count,
{
    rand::thread_rng().gen_range(0..count)
}

} // verus!
