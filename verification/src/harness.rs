//! Calling the computation a given number of times, to give a timing run
//! something to measure.

use vstd::prelude::*;
use crate::compute::{fib, fib_spec};

verus! {

/// What `test` returns: the value of a single call when at least one round is
/// made, and the untouched start value 0 when none is.
pub open spec fn test_spec(n: i32, count: i32) -> int {
    if count >= 1 {
        fib_spec(n)
    } else {
        0
    }
}

/// Computes the Fibonacci number of index `n` `count` times over and returns
/// the last result.
///
/// With `count` at zero or below no round is made and the result is 0,
/// whatever `n` is. The index has to be non-negative only when a round is
/// made.
pub fn test(n: i32, count: i32) -> (res: i32)
    requires
        count >= 1 ==> n >= 0,
    ensures
        res == test_spec(n, count),
        count >= 1 ==> res == fib_spec(n),
        count <= 0 ==> res == 0,
{
    let mut i: i32 = 0;
    let mut res: i32 = 0;
    while i < count
        invariant
            0 <= i,
            i <= count || i == 0,
            count >= 1 ==> n >= 0,
            res == test_spec(n, i),
        decreases count - i,
    {
        res = fib(n);
        i = i + 1;
    }
    res
}

} // verus!
