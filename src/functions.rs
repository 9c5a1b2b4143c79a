//! Plain functions returning values.
use vstd::prelude::*;

verus! {

/// The Fibonacci numbers: 0, 1, 1, 2, 3, 5, 8, 13, 21, ...
pub open spec fn fib(n: nat) -> nat
    decreases n,
{
    if n == 0 {
        0
    } else if n == 1 {
        1
    } else {
        fib((n - 1) as nat) + fib((n - 2) as nat)
    }
}

/// The sequence never decreases.
pub proof fn lemma_fib_monotone(m: nat, n: nat)
    requires
        m <= n,
    ensures
        fib(m) <= fib(n),
    decreases n - m,
{
    if m < n {
        lemma_fib_monotone(m, (n - 1) as nat);
        if n >= 2 {
            assert(fib(n) == fib((n - 1) as nat) + fib((n - 2) as nat));
        }
    }
}

/// Runs the recurrence forward `k` steps from the consecutive pair `(a, b)`.
spec fn fib_forward(k: nat, a: nat, b: nat) -> nat
    decreases k,
{
    if k == 0 {
        a
    } else {
        fib_forward((k - 1) as nat, b, a + b)
    }
}

proof fn lemma_fib_forward(k: nat, i: nat)
    ensures
        fib_forward(k, fib(i), fib(i + 1)) == fib(i + k),
    decreases k,
{
    if k > 0 {
        assert(fib(i + 2) == fib(i + 1) + fib(i));
        lemma_fib_forward((k - 1) as nat, i + 1);
        assert(i + 1 + (k - 1) == i + k);
    }
}

/// The largest Fibonacci number that fits in an `i32` is the 46th.
proof fn lemma_fib_46()
    ensures
        fib(46) == 1836311903,
{
    lemma_fib_forward(46, 0);
    reveal_with_fuel(fib_forward, 47);
}

/// Returns 2, the value of its final expression.
pub fn return_something() -> (r: i32)
    ensures
        r == 2,
{
    let x: i32 = 2;
    x
}

/// Returns 13 through an explicit `return`.
pub fn return_something_else() -> (r: i32)
    ensures
        r == 13,
{
    return 13;
}

/// The `n`th Fibonacci number, computed by the defining recursion.
/// `fibonacci(46)` is the last one that fits in an `i32`.
pub fn fibonacci(n: i32) -> (r: i32)
    requires
        0 <= n <= 46,
    ensures
        r == fib(n as nat),
    decreases n,
{
    proof {
        lemma_fib_46();
        lemma_fib_monotone(n as nat, 46);
    }
    if n == 0 {
        0
    } else if n == 1 {
        1
    } else {
        proof {
            assert(fib(n as nat) == fib((n - 1) as nat) + fib((n - 2) as nat));
        }
        fibonacci(n - 1) + fibonacci(n - 2)
    }
}

} // verus!
