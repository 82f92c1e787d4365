//! Doubling of 64-bit unsigned integers.
//!
//! The product is taken modulo 2^64: a result that does not fit in 64 bits
//! loses its top bit instead of faulting. Nothing here allocates, keeps
//! state or can fail.

use vstd::prelude::*;

verus! {

/// The number of values a `u64` can take, 2^64.
pub open spec fn modulus() -> int {
    0x1_0000_0000_0000_0000
}

/// Twice `a`, reduced modulo 2^64.
pub open spec fn doubled(a: u64) -> int {
    (a as int * 2) % modulus()
}

/// Returns `a * 2` with unsigned wraparound.
///
/// Every `u64` is accepted, and the result is the one value of `u64` that is
/// congruent to `2 * a` modulo 2^64.
pub fn multiply_two(a: u64) -> (r: u64)
    ensures
        r as int == doubled(a),
{
    a.wrapping_mul(2)
}

/// Doubling drops the top bit and nothing else: below 2^63 the result is the
/// exact product, and from 2^63 on it is the exact product less 2^64.
pub proof fn lemma_doubled_drops_top_bit(a: u64)
    ensures
        a < 0x8000_0000_0000_0000 ==> doubled(a) == 2 * a,
        a >= 0x8000_0000_0000_0000 ==> doubled(a) == 2 * a - modulus(),
{
}

/// The result of doubling depends on the input alone: any two results
/// obtained for the same input are equal.
pub proof fn lemma_doubling_is_deterministic(a: u64, first: u64, second: u64)
    requires
        first as int == doubled(a),
        second as int == doubled(a),
    ensures
        first == second,
{
}

} // verus!
