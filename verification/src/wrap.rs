//! Two's-complement wrapping of 32-bit sums.
//!
//! The accumulators add with wrap-around, so what they hold after a run of
//! additions is the exact sum folded into the `i32` range. The lemmas here
//! say so, and say when the fold changes nothing.

use vstd::prelude::*;
use vstd::wrapping::i32_specs::wrapping_add;

verus! {

/// The one value in the `i32` range that differs from `v` by a multiple of
/// `2^32`.
pub open spec fn wrap_i32(v: int) -> int {
    (v + 0x8000_0000) % 0x1_0000_0000 - 0x8000_0000
}

/// A value already in the `i32` range is left as it is.
pub proof fn lemma_wrap_identity(v: int)
    requires
        i32::MIN <= v <= i32::MAX,
    ensures
        wrap_i32(v) == v,
{
}

/// The wrapping addition of two `i32` values is the wrapped exact sum.
pub proof fn lemma_wrapping_add_wraps(a: i32, b: i32)
    ensures
        wrapping_add(a, b) == wrap_i32(a + b),
{
}

/// Wrapping an intermediate sum does not change where the total lands.
pub proof fn lemma_wrap_absorbs(a: int, b: int)
    ensures
        wrap_i32(wrap_i32(a) + b) == wrap_i32(a + b),
{
}

} // verus!
