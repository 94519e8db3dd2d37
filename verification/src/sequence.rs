//! The mathematical sequence: unbounded integers, no machine arithmetic.

use vstd::prelude::*;

verus! {

/// Term `n` of the sequence that begins with `first`, `second` and in which
/// every later term is the sum of the two terms before it.
pub open spec fn additive_term(first: int, second: int, n: nat) -> int
    decreases n,
{
    if n == 0 {
        first
    } else if n == 1 {
        second
    } else {
        additive_term(first, second, (n - 1) as nat) + additive_term(first, second, (n - 2) as nat)
    }
}

/// The Fibonacci number of index `n`: the additive sequence seeded with 0 and 1.
pub open spec fn fibonacci_number(n: nat) -> int {
    additive_term(0, 1, n)
}

/// The same term reached by carrying two neighbouring terms forward: each step
/// drops the older one and puts their sum in front.
pub open spec fn carried_term(n: nat, acc1: int, acc2: int) -> int
    decreases n,
{
    if n == 0 {
        acc1
    } else if n == 1 {
        acc2
    } else {
        carried_term((n - 1) as nat, acc2, acc1 + acc2)
    }
}

/// The largest index whose Fibonacci number fits in an `i32`.
pub open spec fn last_exact_index() -> nat {
    46
}

/// Moving the seeds one place along the sequence lowers every index by one.
pub proof fn lemma_shifted_seeds(first: int, second: int, n: nat)
    requires
        n >= 1,
    ensures
        additive_term(first, second, n) == additive_term(second, first + second, (n - 1) as nat),
    decreases n,
{
    if n >= 3 {
        lemma_shifted_seeds(first, second, (n - 1) as nat);
        lemma_shifted_seeds(first, second, (n - 2) as nat);
    } else if n == 2 {
        assert(additive_term(first, second, 0) == first);
        assert(additive_term(first, second, 1) == second);
    }
}

/// Carrying two accumulators forward arrives at the term that the recurrence
/// defines.
pub proof fn lemma_carried_term(n: nat, acc1: int, acc2: int)
    ensures
        carried_term(n, acc1, acc2) == additive_term(acc1, acc2, n),
    decreases n,
{
    if n >= 2 {
        lemma_carried_term((n - 1) as nat, acc2, acc1 + acc2);
        lemma_shifted_seeds(acc1, acc2, n);
    }
}

/// No Fibonacci number is negative.
pub proof fn lemma_fibonacci_nonnegative(n: nat)
    ensures
        fibonacci_number(n) >= 0,
    decreases n,
{
    if n >= 2 {
        lemma_fibonacci_nonnegative((n - 1) as nat);
        lemma_fibonacci_nonnegative((n - 2) as nat);
    }
}

/// The sequence never decreases: a later index gives a number at least as large.
pub proof fn lemma_fibonacci_monotone(i: nat, j: nat)
    requires
        i <= j,
    ensures
        fibonacci_number(i) <= fibonacci_number(j),
    decreases j,
{
    if i < j {
        let before = (j - 1) as nat;
        lemma_fibonacci_monotone(i, before);
        if j >= 2 {
            lemma_fibonacci_nonnegative((j - 2) as nat);
        }
    }
}

/// The Fibonacci numbers up to the first one that no longer fits in an `i32`.
pub proof fn lemma_fibonacci_values()
    ensures
        fibonacci_number(0) == 0,
        fibonacci_number(1) == 1,
        fibonacci_number(2) == 1,
        fibonacci_number(3) == 2,
        fibonacci_number(4) == 3,
        fibonacci_number(5) == 5,
        fibonacci_number(6) == 8,
        fibonacci_number(7) == 13,
        fibonacci_number(8) == 21,
        fibonacci_number(9) == 34,
        fibonacci_number(10) == 55,
        fibonacci_number(11) == 89,
        fibonacci_number(12) == 144,
        fibonacci_number(13) == 233,
        fibonacci_number(14) == 377,
        fibonacci_number(15) == 610,
        fibonacci_number(16) == 987,
        fibonacci_number(17) == 1597,
        fibonacci_number(18) == 2584,
        fibonacci_number(19) == 4181,
        fibonacci_number(20) == 6765,
        fibonacci_number(21) == 10946,
        fibonacci_number(22) == 17711,
        fibonacci_number(23) == 28657,
        fibonacci_number(24) == 46368,
        fibonacci_number(25) == 75025,
        fibonacci_number(26) == 121393,
        fibonacci_number(27) == 196418,
        fibonacci_number(28) == 317811,
        fibonacci_number(29) == 514229,
        fibonacci_number(30) == 832040,
        fibonacci_number(31) == 1346269,
        fibonacci_number(32) == 2178309,
        fibonacci_number(33) == 3524578,
        fibonacci_number(34) == 5702887,
        fibonacci_number(35) == 9227465,
        fibonacci_number(36) == 14930352,
        fibonacci_number(37) == 24157817,
        fibonacci_number(38) == 39088169,
        fibonacci_number(39) == 63245986,
        fibonacci_number(40) == 102334155,
        fibonacci_number(41) == 165580141,
        fibonacci_number(42) == 267914296,
        fibonacci_number(43) == 433494437,
        fibonacci_number(44) == 701408733,
        fibonacci_number(45) == 1134903170,
        fibonacci_number(46) == 1836311903,
        fibonacci_number(47) == 2971215073,
{
    // Each value follows from the two before it by one unfolding.
    assert(fibonacci_number(0) == 0);
    assert(fibonacci_number(1) == 1);
    assert(fibonacci_number(2) == 1);
    assert(fibonacci_number(3) == 2);
    assert(fibonacci_number(4) == 3);
    assert(fibonacci_number(5) == 5);
    assert(fibonacci_number(6) == 8);
    assert(fibonacci_number(7) == 13);
    assert(fibonacci_number(8) == 21);
    assert(fibonacci_number(9) == 34);
    assert(fibonacci_number(10) == 55);
    assert(fibonacci_number(11) == 89);
    assert(fibonacci_number(12) == 144);
    assert(fibonacci_number(13) == 233);
    assert(fibonacci_number(14) == 377);
    assert(fibonacci_number(15) == 610);
    assert(fibonacci_number(16) == 987);
    assert(fibonacci_number(17) == 1597);
    assert(fibonacci_number(18) == 2584);
    assert(fibonacci_number(19) == 4181);
    assert(fibonacci_number(20) == 6765);
    assert(fibonacci_number(21) == 10946);
    assert(fibonacci_number(22) == 17711);
    assert(fibonacci_number(23) == 28657);
    assert(fibonacci_number(24) == 46368);
    assert(fibonacci_number(25) == 75025);
    assert(fibonacci_number(26) == 121393);
    assert(fibonacci_number(27) == 196418);
    assert(fibonacci_number(28) == 317811);
    assert(fibonacci_number(29) == 514229);
    assert(fibonacci_number(30) == 832040);
    assert(fibonacci_number(31) == 1346269);
    assert(fibonacci_number(32) == 2178309);
    assert(fibonacci_number(33) == 3524578);
    assert(fibonacci_number(34) == 5702887);
    assert(fibonacci_number(35) == 9227465);
    assert(fibonacci_number(36) == 14930352);
    assert(fibonacci_number(37) == 24157817);
    assert(fibonacci_number(38) == 39088169);
    assert(fibonacci_number(39) == 63245986);
    assert(fibonacci_number(40) == 102334155);
    assert(fibonacci_number(41) == 165580141);
    assert(fibonacci_number(42) == 267914296);
    assert(fibonacci_number(43) == 433494437);
    assert(fibonacci_number(44) == 701408733);
    assert(fibonacci_number(45) == 1134903170);
    assert(fibonacci_number(46) == 1836311903);
    assert(fibonacci_number(47) == 2971215073);
}

/// A Fibonacci number fits in an `i32` exactly when its index is at most
/// `last_exact_index()`.
pub proof fn lemma_fibonacci_fits_i32(n: nat)
    ensures
        0 <= fibonacci_number(n),
        fibonacci_number(n) <= i32::MAX <==> n <= last_exact_index(),
{
    lemma_fibonacci_nonnegative(n);
    lemma_fibonacci_values();
    if n <= 46 {
        lemma_fibonacci_monotone(n, 46);
    } else {
        lemma_fibonacci_monotone(47, n);
    }
}

} // verus!
