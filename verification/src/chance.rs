//! Random bits.
use vstd::prelude::*;
use rand::Rng;

verus! {

/// Thirty-two bits from the generator that `rand` keeps for the running
/// thread (`rand::thread_rng`, then `Rng::gen`). Nothing is claimed of them:
/// a caller's proof holds for each of the values a `u32` can take.
#[verifier::external_body]
pub(crate) fn random_bits() -> (r: u32)
{
    rand::thread_rng().gen::<u32>()
}

} // verus!
