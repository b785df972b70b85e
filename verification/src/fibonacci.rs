//! Fibonacci terms, in the convention where terms 0 and 1 are both 0.

use vstd::prelude::*;

verus! {

/// The n-th Fibonacci term: terms 0 and 1 are both 0, term 2 is 1, and each
/// later term is the sum of the two terms before it.
pub open spec fn term(n: nat) -> nat
    decreases n,
{
    if n <= 1 {
        0
    } else if n == 2 {
        1
    } else {
        term((n - 1) as nat) + term((n - 2) as nat)
    }
}

/// Terms 0 and 1 are fixed base values; nothing is summed for them.
pub proof fn lemma_term_base(n: nat)
    requires
        n <= 1,
    ensures
        term(n) == 0,
{
}

/// Each term is at most the one after it.
pub proof fn lemma_term_step_monotonic(n: nat)
    ensures
        term(n) <= term(n + 1),
{
    if n >= 2 {
        assert(term(n + 1) == term(n) + term((n - 1) as nat));
    }
}

/// The sequence of terms never decreases.
pub proof fn lemma_term_monotonic(m: nat, n: nat)
    requires
        m <= n,
    ensures
        term(m) <= term(n),
    decreases n - m,
{
    if m < n {
        lemma_term_monotonic(m, (n - 1) as nat);
        lemma_term_step_monotonic((n - 1) as nat);
    }
}

/// Why a Fibonacci term could not be computed.
#[derive(Clone, Copy, Debug, PartialEq, Eq, Structural)]
pub enum Error {
    /// The requested index is negative.
    InvalidArgument,
    /// The requested term does not fit in the result type.
    Overflow,
}

/// Computes the `num`-th Fibonacci term by iteration.
pub fn gen_fib(num: i32) -> (r: i32)
    requires
        0 <= num,
        term(num as nat) <= i32::MAX,
    ensures
        r == term(num as nat),
{
    if num <= 1 {
        return 0;
    }
    let mut fib: i32 = 1;
    let mut prev_fib: i32 = 0;
    let mut val: i32 = 2;
    while val < num
        invariant
            2 <= val <= num,
            term(num as nat) <= i32::MAX,
            fib == term(val as nat),
            prev_fib == term((val - 1) as nat),
        decreases num - val,
    {
        proof {
            lemma_term_monotonic((val + 1) as nat, num as nat);
            assert(term((val + 1) as nat) == term(val as nat) + term((val - 1) as nat));
        }
        let current_fib: i32 = fib;
        fib = current_fib + prev_fib;
        prev_fib = current_fib;
        val = val + 1;
    }
    fib
}

/// Computes the `num`-th Fibonacci term, rejecting a negative index and
/// reporting a term that does not fit in 32 bits instead of overflowing.
pub fn checked_gen_fib(num: i32) -> (r: Result<i32, Error>)
    ensures
        num < 0 ==> r == Err::<i32, Error>(Error::InvalidArgument),
        0 <= num && term(num as nat) <= i32::MAX ==> r == Ok::<i32, Error>(term(num as nat) as i32),
        0 <= num && term(num as nat) > i32::MAX ==> r == Err::<i32, Error>(Error::Overflow),
{
    if num < 0 {
        return Err(Error::InvalidArgument);
    }
    if num <= 1 {
        return Ok(0);
    }
    let mut fib: i32 = 1;
    let mut prev_fib: i32 = 0;
    let mut val: i32 = 2;
    while val < num
        invariant
            2 <= val <= num,
            fib == term(val as nat),
            prev_fib == term((val - 1) as nat),
        decreases num - val,
    {
        proof {
            assert(term((val + 1) as nat) == term(val as nat) + term((val - 1) as nat));
        }
        let current_fib: i32 = fib;
        fib = match current_fib.checked_add(prev_fib) {
            Some(next) => next,
            None => {
                proof {
                    lemma_term_monotonic((val + 1) as nat, num as nat);
                }
                return Err(Error::Overflow);
            },
        };
        prev_fib = current_fib;
        val = val + 1;
    }
    Ok(fib)
}

/// The term computation is a pure function of its input: any two results
/// that its contract admits for the same index are equal.
pub proof fn lemma_term_pure(n: nat, r1: nat, r2: nat)
    requires
        r1 == term(n),
        r2 == term(n),
    ensures
        r1 == r2,
{
}

} // verus!
