//! The source of chance. Every function that draws a random number is handed
//! the generator, so that a run can be repeated from a seed.

use rand::rngs::StdRng;
use rand::Rng;
use vstd::prelude::*;

verus! {

/// `rand::rngs::StdRng`, the generator that is handed around. Nothing is
/// known of what is inside it.
#[verifier::external_type_specification]
#[verifier::external_body]
pub struct ExStdRng(StdRng);

/// Draws a number from `low` up to, but not including, `high`.
///
/// Calls `rand::Rng::gen_range` on the half-open range. Nothing is proved of
/// it; the contract claims only that the number lies in the range, which
/// must not be empty.
#[verifier::external_body]
pub(crate) fn random_in_range(rng: &mut StdRng, low: i64, high: i64) -> (r: i64)
    requires
        low < high,
    ensures
        low <= r < high,
{
    rng.gen_range(low..high)
}

} // verus!
