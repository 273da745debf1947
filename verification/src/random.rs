//! The one source of chance.

use rand::Rng;
use vstd::prelude::*;

verus! {

/// Draws a number below `bound`, each with the same chance.
///
/// Calls `rand::Rng::gen_range` on the generator of the current thread,
/// which the system seeds when the thread first asks for it. Trusted: the
/// number drawn is below the bound. Nothing is said of which number it is,
/// and two calls may differ.
#[verifier::external_body]
pub(crate) fn random_below(bound: u64) -> (drawn: u64)
    requires
        bound > 0,
    ensures
        drawn < bound,
{
    rand::thread_rng().gen_range(0..bound)
}

} // verus!
