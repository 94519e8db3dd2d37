use fibonacci::compute::{aux, fib, fib2};

const CANONICAL: [i32; 31] = [
    0, 1, 1, 2, 3, 5, 8, 13, 21, 34, 55, 89, 144, 233, 377, 610, 987, 1597, 2584, 4181, 6765,
    10946, 17711, 28657, 46368, 75025, 121393, 196418, 317811, 514229, 832040,
];

/// An independent double recursion on wide integers, to check results against.
fn by_definition(n: u32) -> i64 {
    if n < 2 {
        n as i64
    } else {
        by_definition(n - 1) + by_definition(n - 2)
    }
}

#[test]
fn fib_matches_canonical_values_up_to_30() {
    for (n, expected) in CANONICAL.iter().enumerate() {
        assert_eq!(fib(n as i32), *expected, "index {}", n);
    }
}

#[test]
fn fib2_matches_canonical_values_up_to_30() {
    for (n, expected) in CANONICAL.iter().enumerate() {
        assert_eq!(fib2(n as i32), *expected, "index {}", n);
    }
}

#[test]
fn base_cases_are_exact() {
    assert_eq!(fib(0), 0);
    assert_eq!(fib(1), 1);
    assert_eq!(fib2(0), 0);
    assert_eq!(fib2(1), 1);
}

#[test]
fn small_indices_match_the_definition() {
    for n in 0u32..=25 {
        assert_eq!(fib(n as i32) as i64, by_definition(n), "index {}", n);
        assert_eq!(fib2(n as i32) as i64, by_definition(n), "index {}", n);
    }
}

#[test]
fn recurrence_holds_while_values_fit() {
    for n in 2i32..=46 {
        assert_eq!(fib(n), fib(n - 1) + fib(n - 2), "index {}", n);
        assert_eq!(fib2(n), fib2(n - 1) + fib2(n - 2), "index {}", n);
    }
}

#[test]
fn recurrence_holds_with_wrapping_past_the_last_exact_index() {
    for n in 47i32..=200 {
        assert_eq!(fib(n), fib(n - 1).wrapping_add(fib(n - 2)), "index {}", n);
    }
}

#[test]
fn last_exact_index_gives_the_largest_value_that_fits() {
    assert_eq!(fib(45), 1134903170);
    assert_eq!(fib(46), 1836311903);
    assert_eq!(fib2(46), 1836311903);
    assert!(fib(46) as i64 + fib(45) as i64 > i32::MAX as i64);
}

#[test]
fn values_are_non_decreasing_while_they_fit() {
    for n in 0i32..46 {
        assert!(fib(n) <= fib(n + 1), "index {}", n);
    }
}

#[test]
fn values_wrap_past_the_last_exact_index() {
    assert_eq!(fib(47), -1323752223);
    assert_eq!(fib(48), 512559680);
    assert_eq!(fib(49), -811192543);
    assert_eq!(fib(50), -298632863);
    assert_eq!(fib(60), 1820529360);
    assert_eq!(fib(93), 572466946);
    assert_eq!(fib(100), -980107325);
    assert_eq!(fib2(47), -1323752223);
    assert_eq!(fib2(100), -980107325);
}

#[test]
fn large_indices_are_computed_without_deep_recursion() {
    assert_eq!(fib(1000), 1556111435);
    assert_eq!(fib(100000), 873876091);
    assert_eq!(fib2(100000), 873876091);
}

#[test]
fn fib_and_fib2_agree() {
    for n in 0i32..=120 {
        assert_eq!(fib(n), fib2(n), "index {}", n);
    }
}

#[test]
fn identical_inputs_give_identical_outputs() {
    for n in [0i32, 1, 2, 17, 46, 47, 500] {
        let first: i32 = fib(n);
        let second: i32 = fib(n);
        assert_eq!(first, second);
        assert_eq!(fib2(n), fib2(n));
    }
}

#[test]
fn aux_returns_the_seeds_at_indices_zero_and_one() {
    assert_eq!(aux(0, 7, 9), 7);
    assert_eq!(aux(1, 7, 9), 9);
    assert_eq!(aux(0, -5, 3), -5);
    assert_eq!(aux(1, -5, 3), 3);
    assert_eq!(aux(0, i32::MAX, i32::MIN), i32::MAX);
    assert_eq!(aux(1, i32::MAX, i32::MIN), i32::MIN);
}

#[test]
fn aux_with_fibonacci_seeds_is_fib() {
    for n in 0i32..=60 {
        assert_eq!(aux(n, 0, 1), fib(n), "index {}", n);
    }
}

#[test]
fn aux_with_other_seeds_gives_that_sequence() {
    let lucas: [i32; 12] = [2, 1, 3, 4, 7, 11, 18, 29, 47, 76, 123, 199];
    for (n, expected) in lucas.iter().enumerate() {
        assert_eq!(aux(n as i32, 2, 1), *expected, "index {}", n);
    }
    let mixed: [i32; 10] = [-3, 5, 2, 7, 9, 16, 25, 41, 66, 107];
    for (n, expected) in mixed.iter().enumerate() {
        assert_eq!(aux(n as i32, -3, 5), *expected, "index {}", n);
    }
    assert_eq!(aux(20, 0, 0), 0);
}

#[test]
fn aux_started_further_along_continues_the_sequence() {
    for n in 0i32..=40 {
        assert_eq!(aux(n, fib(5), fib(6)), fib(n + 5), "index {}", n);
    }
}

#[test]
fn aux_wraps_at_both_ends_of_the_range() {
    let from_max: [i32; 6] = [2147483647, 1, -2147483648, -2147483647, 1, -2147483646];
    for (n, expected) in from_max.iter().enumerate() {
        assert_eq!(aux(n as i32, i32::MAX, 1), *expected, "index {}", n);
    }
    let from_min: [i32; 6] = [-2147483648, -1, 2147483647, 2147483646, -3, 2147483643];
    for (n, expected) in from_min.iter().enumerate() {
        assert_eq!(aux(n as i32, i32::MIN, -1), *expected, "index {}", n);
    }
    assert_eq!(aux(44, 2, 1), 1568397607);
    assert_eq!(aux(45, 2, 1), -1757246660);
    assert_eq!(aux(46, 2, 1), -188849053);
}
