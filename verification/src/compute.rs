//! The compute-budget example: a division-based prime search.
//!
//! The primality test tries divisors only up to half the candidate, which
//! suffices because no proper divisor of a number exceeds its half. The
//! test has no candidates below 2, so it reports 0 and 1 as prime-like;
//! the search starts at 2 and never meets them.

use vstd::prelude::*;

verus! {

/// The division test's notion of primality: no divisor in `[2, n)`.
pub open spec fn prime_like(n: int) -> bool {
    forall|j: int| 2 <= j < n ==> #[trigger] (n % j) != 0
}

/// How many prime-like numbers lie in `[2, n)`.
pub open spec fn prime_like_count(n: int) -> int
    decreases n,
{
    if n <= 2 {
        0
    } else {
        prime_like_count(n - 1) + if prime_like(n - 1) {
            1int
        } else {
            0int
        }
    }
}

/// A proper divisor of `n` is at most `n / 2`.
proof fn lemma_divisor_at_most_half(n: int, j: int)
    requires
        2 <= j < n,
        n % j == 0,
    ensures
        j <= n / 2,
{
    let q = n / j;
    vstd::arithmetic::div_mod::lemma_fundamental_div_mod(n, j);
    assert(n == j * q);
    assert(q >= 2) by (nonlinear_arith)
        requires
            n == j * q,
            2 <= j,
            j < n,
    ;
    assert(n >= 2 * j) by (nonlinear_arith)
        requires
            n == j * q,
            q >= 2,
            j >= 2,
    ;
    vstd::arithmetic::div_mod::lemma_div_is_ordered(2 * j, n, 2);
    vstd::arithmetic::div_mod::lemma_div_multiples_vanish(j, 2);
}

/// Reports whether `number` passes the division test: true exactly when no
/// integer in `[2, number)` divides it.
pub fn is_prime(number: &u16) -> (r: bool)
    ensures
        r == prime_like(*number as int),
{
    let upper_range: u16 = *number / 2 + 1;
    let mut i: u16 = 2;
    while i < upper_range
        invariant
            2 <= i,
            upper_range == *number / 2 + 1,
            forall|j: int| 2 <= j < i ==> #[trigger] ((*number as int) % j) != 0,
        decreases upper_range - i,
    {
        if *number % i == 0 {
            proof {
                assert(2 <= i < upper_range);
                assert((i as int) <= (*number as int) / 2);
                assert((i as int) < (*number as int));
            }
            return false;
        }
        i = i + 1;
    }
    proof {
        assert forall|j: int| 2 <= j < (*number as int) implies #[trigger] ((*number as int) % j)
            != 0 by {
            if j >= upper_range as int {
                if (*number as int) % j == 0 {
                    lemma_divisor_at_most_half(*number as int, j);
                }
            }
        }
    }
    true
}

/// Finds the `nth_prime`-th number that passes the division test, counting
/// from 1; for a zero request it reports 2 without searching. The search
/// stops at the top of the 16-bit range, so the result is exact whenever
/// that range holds enough prime-like numbers — and for every count a byte
/// can request, it does.
pub fn division_based(nth_prime: u8) -> (r: u16)
    ensures
        nth_prime == 0 ==> r == 2u16,
        nth_prime > 0 ==> prime_like(r as int) && 2 <= r,
        nth_prime > 0 ==> prime_like_count(r as int + 1) == nth_prime as int || prime_like_count(
            65535,
        ) < nth_prime as int,
{
    let mut primes_found: u16 = 0;
    let mut numb: u16 = 2;
    let mut latest_prime: u16 = 2;

    while primes_found < nth_prime as u16 && numb < 65535
        invariant
            2 <= numb <= 65535,
            primes_found as int == prime_like_count(numb as int),
            primes_found <= nth_prime as u16,
            primes_found == 0 ==> latest_prime == 2,
            primes_found > 0 ==> {
                &&& prime_like(latest_prime as int)
                &&& 2 <= latest_prime
                &&& prime_like_count(latest_prime as int + 1) == primes_found as int
                &&& latest_prime < numb
            },
        decreases 65535 - numb,
    {
        if is_prime(&numb) {
            primes_found = primes_found + 1;
            latest_prime = numb;
        }
        numb = numb + 1;
    }
    proof {
        assert(prime_like(2));
    }
    latest_prime
}

} // verus!
