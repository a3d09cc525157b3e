//! The one source of chance: which candidate the refill buffer gives up next.

use rand::Rng;
use vstd::prelude::*;

verus! {

/// Picks a position below `len` by `rand::Rng::gen_range` on the generator of
/// the calling thread.
///
/// Trusted: `gen_range(low, high)` returns a value in `low..high` and panics
/// when `low >= high`, hence a positive `len` is demanded. Nothing is claimed
/// about which position comes back.
#[verifier::external_body]
pub(crate) fn random_index(len: usize) -> (index: usize)
    requires
        0 < len,
    ensures
        index < len,
{
    rand::thread_rng().gen_range(0, len)
}

} // verus!
