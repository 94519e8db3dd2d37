//! Two's-complement reduction of a mathematical integer to 32 bits.

use vstd::prelude::*;

verus! {

/// The number of values a 32-bit integer can take.
pub open spec fn modulus() -> int {
    0x1_0000_0000
}

/// The one integer within the range of `i32` that differs from `v` by a
/// multiple of 2^32: what is left of `v` after arithmetic that wraps around.
pub open spec fn wrap_i32(v: int) -> int {
    let low = v % modulus();
    if low <= i32::MAX {
        low
    } else {
        low - modulus()
    }
}

/// A wrapped value always lies within the range of `i32`.
pub proof fn lemma_wrap_in_range(v: int)
    ensures
        i32::MIN <= wrap_i32(v) <= i32::MAX,
{
}

/// A value that already fits in an `i32` is left as it is.
pub proof fn lemma_wrap_exact(v: int)
    requires
        i32::MIN <= v <= i32::MAX,
    ensures
        wrap_i32(v) == v,
{
}

/// Wrapping a sum gives the same as wrapping the sum of the wrapped terms.
pub proof fn lemma_wrap_sum(a: int, b: int)
    ensures
        wrap_i32(wrap_i32(a) + wrap_i32(b)) == wrap_i32(a + b),
{
}

/// `i32::wrapping_add` on two wrapped values yields the wrapped sum of the
/// values they stand for.
pub proof fn lemma_wrapping_add(x: i32, y: i32, a: int, b: int)
    requires
        x == wrap_i32(a),
        y == wrap_i32(b),
    ensures
        x.wrapping_add(y) == wrap_i32(a + b),
{
}

} // verus!
