use vstd::prelude::*;

verus! {

/// The sum of `a` and `b` reduced modulo 2^32.
///
/// This is the overflow policy of the library: addition wraps around, so
/// `fast_add(u32::MAX, 1)` is `0`. Whenever the mathematical sum fits in a
/// `u32`, the result is that sum exactly.
pub open spec fn sum_wrapped(a: u32, b: u32) -> u32 {
    ((a + b) % 0x1_0000_0000) as u32
}

/// Adds two unsigned 32-bit integers, wrapping around on overflow.
pub fn fast_add(a: u32, b: u32) -> (r: u32)
    ensures
        r == sum_wrapped(a, b),
        a + b <= u32::MAX ==> r == a + b,
{
    a.wrapping_add(b)
}

/// Commutativity: the order of the two summands does not change the result.
pub proof fn lemma_sum_wrapped_commutes(a: u32, b: u32)
    ensures
        sum_wrapped(a, b) == sum_wrapped(b, a),
{
}

/// Identity: adding zero leaves the other summand unchanged.
pub proof fn lemma_sum_wrapped_zero(a: u32)
    ensures
        sum_wrapped(a, 0) == a,
{
}

} // verus!
