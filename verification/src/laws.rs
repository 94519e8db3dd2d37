//! What holds of the results, stated over the functions' own contracts.

use vstd::prelude::*;
use crate::compute::{fib, fib2, fib_spec};
use crate::harness::test_spec;
use crate::sequence::{fibonacci_number, last_exact_index, lemma_fibonacci_fits_i32};
use crate::wrap::{lemma_wrap_exact, lemma_wrap_in_range, lemma_wrap_sum, wrap_i32};

verus! {

/// The sequence starts with 0 and 1, and so do the results.
pub proof fn lemma_base_cases()
    ensures
        fibonacci_number(0) == 0,
        fibonacci_number(1) == 1,
        fib_spec(0) == 0,
        fib_spec(1) == 1,
{
}

/// From index 2 on, every Fibonacci number is the sum of the two before it.
pub proof fn lemma_recurrence(n: nat)
    requires
        n >= 2,
    ensures
        fibonacci_number(n) == fibonacci_number((n - 1) as nat) + fibonacci_number((n - 2) as nat),
{
}

/// Up to the last exact index a result is the Fibonacci number itself, in
/// range and not wrapped.
pub proof fn lemma_result_exact(n: i32)
    requires
        0 <= n <= last_exact_index(),
    ensures
        fib_spec(n) == fibonacci_number(n as nat),
        0 <= fib_spec(n) <= i32::MAX,
{
    lemma_fibonacci_fits_i32(n as nat);
    lemma_wrap_exact(fibonacci_number(n as nat));
}

/// Every result lies within the range of `i32`, and past the last exact index
/// a result is no longer the Fibonacci number, which has outgrown that range.
pub proof fn lemma_result_wrapped(n: i32)
    requires
        n > last_exact_index(),
    ensures
        i32::MIN <= fib_spec(n) <= i32::MAX,
        fib_spec(n) != fibonacci_number(n as nat),
{
    lemma_fibonacci_fits_i32(n as nat);
    lemma_wrap_in_range(fibonacci_number(n as nat));
}

/// The results obey the recurrence: from index 2 on, a result is the wrapped
/// sum of the two results before it, and up to the last exact index it is
/// their plain sum.
pub proof fn lemma_result_recurrence(n: i32)
    requires
        n >= 2,
    ensures
        fib_spec(n) == wrap_i32(fib_spec((n - 1) as i32) + fib_spec((n - 2) as i32)),
        n <= last_exact_index() ==> fib_spec(n) == fib_spec((n - 1) as i32) + fib_spec(
            (n - 2) as i32,
        ),
{
    let one_back = (n - 1) as i32;
    let two_back = (n - 2) as i32;
    lemma_recurrence(n as nat);
    lemma_wrap_sum(fibonacci_number(one_back as nat), fibonacci_number(two_back as nat));
    if n <= last_exact_index() {
        lemma_result_exact(n);
        lemma_result_exact(one_back);
        lemma_result_exact(two_back);
    }
}

/// Repeating the call does not change the value: with one round or more the
/// harness gives what a single call gives.
pub proof fn lemma_repetition_keeps_value(n: i32, count: i32)
    requires
        count >= 1,
    ensures
        test_spec(n, count) == fib_spec(n),
{
}

/// With no round made the harness gives its start value 0, not the Fibonacci
/// number, whatever the index.
pub proof fn lemma_no_round_gives_zero(n: i32, count: i32)
    requires
        count <= 0,
    ensures
        test_spec(n, count) == 0,
{
}

/// `fib` is a function of its argument: any two results that its contract
/// admits for one index are equal.
pub proof fn lemma_fib_deterministic(n: i32, first: i32, second: i32)
    requires
        call_ensures(fib, (n,), first),
        call_ensures(fib, (n,), second),
    ensures
        first == second,
{
}

/// `fib2` is a function of its argument, and the same function as `fib`.
pub proof fn lemma_fib2_deterministic(n: i32, first: i32, second: i32, other: i32)
    requires
        call_ensures(fib2, (n,), first),
        call_ensures(fib2, (n,), second),
        call_ensures(fib, (n,), other),
    ensures
        first == second,
        first == other,
{
}

/// `test` is a function of its two arguments.
pub proof fn lemma_test_deterministic(n: i32, count: i32, first: i32, second: i32)
    requires
        call_ensures(crate::harness::test, (n, count), first),
        call_ensures(crate::harness::test, (n, count), second),
    ensures
        first == second,
{
}

} // verus!
