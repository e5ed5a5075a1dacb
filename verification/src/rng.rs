use vstd::prelude::*;

use bracket_lib::random::RandomNumberGenerator;

verus! {

/// Declares bracket_lib's pseudo-random generator so it can stand in
/// signatures; values of it are opaque to the verifier.
#[verifier::external_type_specification]
#[verifier::external_body]
pub struct ExRandomNumberGenerator(RandomNumberGenerator);

/// Relies on RandomNumberGenerator::range: the result is drawn from the
/// range inclusive of `min` and exclusive of `max`; the call demands a
/// non-empty range.
#[verifier::external_body]
pub(crate) fn rng_range(rng: &mut RandomNumberGenerator, min: i64, max: i64) -> (r: i64)
    requires
        min < max,
    ensures
        min <= r < max,
{
    rng.range(min, max)
}

} // verus!
