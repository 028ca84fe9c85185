//! The random source. Nothing here is proved: these items state what the
//! `rand` crate is trusted to do.

use vstd::prelude::*;
use rand::Rng;
use rand::rngs::StdRng;

verus! {

/// `rand::rngs::StdRng`, the seedable generator every draw is taken from.
/// Its state is opaque to the verifier.
#[verifier::external_type_specification]
#[verifier::external_body]
pub struct ExStdRng(StdRng);

/// Calls `Rng::gen_range` on the half-open range `low..high`.
///
/// `gen_range` panics on an empty range, which `requires` rules out. For a
/// non-empty integer range it returns some value `v` with `low <= v < high`;
/// which one depends on the generator's state, so nothing more is claimed.
#[verifier::external_body]
pub(crate) fn uniform(rng: &mut StdRng, low: i64, high: i64) -> (v: i64)
    requires
        low < high,
    ensures
        low <= v < high,
{
    rng.gen_range(low..high)
}

} // verus!
