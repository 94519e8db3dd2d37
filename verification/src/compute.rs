//! The computation itself: two accumulators carried forward, on `i32`.

use vstd::prelude::*;
use crate::sequence::{additive_term, fibonacci_number, last_exact_index, lemma_fibonacci_fits_i32};
use crate::wrap::{lemma_wrap_exact, lemma_wrapping_add, wrap_i32};

verus! {

/// What `fib` and `fib2` return for a non-negative index `n`: the Fibonacci
/// number of that index, wrapped to 32 bits.
pub open spec fn fib_spec(n: i32) -> int {
    wrap_i32(fibonacci_number(n as nat))
}

/// Term `n` of the additive sequence that begins with `acc1`, `acc2`.
///
/// The two accumulators hold two neighbouring terms and move one place along
/// the sequence per step. Sums wrap around, so the result is the term reduced
/// to 32 bits; it is the term itself whenever that fits.
///
/// A negative `n` names no term and is not accepted.
pub fn aux(n: i32, acc1: i32, acc2: i32) -> (r: i32)
    requires
        n >= 0,
    ensures
        r == wrap_i32(additive_term(acc1 as int, acc2 as int, n as nat)),
{
    let mut left: i32 = n;
    let mut low: i32 = acc1;
    let mut high: i32 = acc2;
    proof {
        lemma_wrap_exact(acc1 as int);
        lemma_wrap_exact(acc2 as int);
    }
    while left > 1
        invariant
            0 <= left <= n,
            n >= 1 ==> left >= 1,
            low == wrap_i32(additive_term(acc1 as int, acc2 as int, (n - left) as nat)),
            high == wrap_i32(additive_term(acc1 as int, acc2 as int, (n - left + 1) as nat)),
        decreases left,
    {
        proof {
            lemma_wrapping_add(
                low,
                high,
                additive_term(acc1 as int, acc2 as int, (n - left) as nat),
                additive_term(acc1 as int, acc2 as int, (n - left + 1) as nat),
            );
        }
        let sum: i32 = low.wrapping_add(high);
        low = high;
        high = sum;
        left = left - 1;
    }
    if left == 0 {
        low
    } else {
        high
    }
}

/// The Fibonacci number of index `n`, with fib(0) = 0 and fib(1) = 1.
///
/// Exact up to index 46, the last whose number fits in an `i32`; beyond it the
/// result is the number wrapped to 32 bits. A negative index is not accepted.
pub fn fib(n: i32) -> (r: i32)
    requires
        n >= 0,
    ensures
        r == fib_spec(n),
        n <= last_exact_index() ==> r == fibonacci_number(n as nat),
{
    proof {
        lemma_fibonacci_fits_i32(n as nat);
        if n <= last_exact_index() {
            lemma_wrap_exact(fibonacci_number(n as nat));
        }
    }
    aux(n, 0, 1)
}

/// The Fibonacci number of index `n`; the same function as `fib`, under the
/// name by which it is offered as an entry point.
pub fn fib2(n: i32) -> (r: i32)
    requires
        n >= 0,
    ensures
        r == fib_spec(n),
        n <= last_exact_index() ==> r == fibonacci_number(n as nat),
{
    proof {
        lemma_fibonacci_fits_i32(n as nat);
        if n <= last_exact_index() {
            lemma_wrap_exact(fibonacci_number(n as nat));
        }
    }
    aux(n, 0, 1)
}

} // verus!
