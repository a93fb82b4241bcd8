use vstd::prelude::*;

verus! {

/// Largest magnitude of a bound handed to `random_between`.
pub const RANDOM_LIMIT: i64 = 1048576;

/// Relies on macroquad::rand::gen_range (quad_rand 0.2): for an integer type it
/// computes `low + (high - low) * u` in f64 with `u` in `[0, 1)` and casts the
/// result back, truncating toward zero. For bounds of this size every step is
/// exact in f64, so the result lies in `[low, high]`.
#[verifier::external_body]
pub(crate) fn random_between(low: i64, high: i64) -> (r: i64)
    requires
        -RANDOM_LIMIT <= low <= high <= RANDOM_LIMIT,
    ensures
        low <= r <= high,
{
    macroquad::rand::gen_range(low, high)
}

} // verus!
