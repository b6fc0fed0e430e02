//! Facts about whole numbers that the amounts rest on: powers of ten,
//! multiples, the greatest common divisor and the least common multiple.

use vstd::arithmetic::div_mod::{
    lemma_add_mod_noop, lemma_fundamental_div_mod, lemma_mod_multiples_basic, lemma_mod_self_0,
    lemma_small_mod,
};
use vstd::prelude::*;

verus! {

/// Ten to the power `n`.
pub open spec fn pow10(n: nat) -> nat
    decreases n,
{
    if n == 0 {
        1
    } else {
        10 * pow10((n - 1) as nat)
    }
}

/// The quotient of two natural numbers, as a real number.
pub open spec fn ratio(n: nat, d: nat) -> real {
    (n as real) / (d as real)
}

/// The greatest common divisor of two numbers, after Euclid.
pub open spec fn gcd(a: nat, b: nat) -> nat
    decreases b,
{
    if b == 0 {
        a
    } else {
        gcd(b, a % b)
    }
}

/// The least common multiple of two positive numbers.
pub open spec fn lcm(a: nat, b: nat) -> nat {
    a * (b / gcd(a, b))
}

/// Every power of ten is positive.
pub proof fn lemma_pow10_positive(n: nat)
    ensures
        pow10(n) > 0,
    decreases n,
{
    if n > 0 {
        lemma_pow10_positive((n - 1) as nat);
    }
}

/// A power of ten splits into two: `10^(a + b) == 10^a * 10^b`.
pub proof fn lemma_pow10_adds(a: nat, b: nat)
    ensures
        pow10(a + b) == pow10(a) * pow10(b),
    decreases a,
{
    if a > 0 {
        let rest = (a - 1) as nat;
        lemma_pow10_adds(rest, b);
        assert(((a + b) - 1) as nat == rest + b);
        assert(pow10(a + b) == 10 * pow10(rest + b));
        assert(pow10(a) == 10 * pow10(rest));
        assert(10 * (pow10(rest) * pow10(b)) == (10 * pow10(rest)) * pow10(b)) by (nonlinear_arith);
    } else {
        assert(a + b == b);
        assert(pow10(a) == 1);
        assert(1 * pow10(b) == pow10(b)) by (nonlinear_arith);
    }
}

/// A multiple of a multiple of `d` is a multiple of `d`.
pub proof fn lemma_multiple_of_multiple(x: nat, y: nat, d: nat)
    requires
        d > 0,
        x % d == 0,
    ensures
        (x * y) % d == 0,
{
    let q = x / d;
    lemma_fundamental_div_mod(x as int, d as int);
    assert(x * y == (q * y) * d) by (nonlinear_arith)
        requires
            x == d * q,
    ;
    lemma_mod_multiples_basic((q * y) as int, d as int);
}

/// The sum of two multiples of `d` is a multiple of `d`.
pub proof fn lemma_sum_of_multiples(x: nat, y: nat, d: nat)
    requires
        d > 0,
        x % d == 0,
        y % d == 0,
    ensures
        (x + y) % d == 0,
{
    lemma_add_mod_noop(x as int, y as int, d as int);
    lemma_small_mod(0, d);
}

/// A positive multiple of `d` is at least `d`.
pub proof fn lemma_divisor_is_at_most(x: nat, d: nat)
    requires
        d > 0,
        x > 0,
        x % d == 0,
    ensures
        d <= x,
{
    if x < d {
        lemma_small_mod(x, d);
    }
}

/// What divides a power of ten divides every higher power of ten.
pub proof fn lemma_divides_higher_pow10(d: nat, low: nat, high: nat)
    requires
        d > 0,
        low <= high,
        pow10(low) % d == 0,
    ensures
        pow10(high) % d == 0,
{
    lemma_pow10_adds(low, (high - low) as nat);
    lemma_multiple_of_multiple(pow10(low), pow10((high - low) as nat), d);
}

/// The greatest common divisor of two numbers, not both zero, is positive and
/// divides both.
pub proof fn lemma_gcd_divides(a: nat, b: nat)
    requires
        a > 0 || b > 0,
    ensures
        gcd(a, b) > 0,
        a % gcd(a, b) == 0,
        b % gcd(a, b) == 0,
    decreases b,
{
    if b == 0 {
        lemma_mod_self_0(a as int);
        lemma_small_mod(0, a);
    } else {
        let rest = a % b;
        let g = gcd(b, rest);
        lemma_gcd_divides(b, rest);
        lemma_fundamental_div_mod(a as int, b as int);
        lemma_multiple_of_multiple(b, a / b, g);
        lemma_sum_of_multiples(b * (a / b), rest, g);
    }
}

/// The least common multiple of two positive numbers is positive and a
/// multiple of both.
pub proof fn lemma_lcm_is_common_multiple(a: nat, b: nat)
    requires
        a > 0,
        b > 0,
    ensures
        lcm(a, b) > 0,
        lcm(a, b) % a == 0,
        lcm(a, b) % b == 0,
{
    let g = gcd(a, b);
    lemma_gcd_divides(a, b);
    let ka = a / g;
    let kb = b / g;
    lemma_fundamental_div_mod(a as int, g as int);
    lemma_fundamental_div_mod(b as int, g as int);
    assert(kb > 0) by (nonlinear_arith)
        requires
            b == g * kb,
            b > 0,
            g > 0,
    ;
    assert(a * kb > 0) by (nonlinear_arith)
        requires
            a > 0,
            kb > 0,
    ;
    lemma_mod_multiples_basic(kb as int, a as int);
    assert(a * kb == kb * a) by (nonlinear_arith);
    assert(a * kb == ka * b) by (nonlinear_arith)
        requires
            a == g * ka,
            b == g * kb,
    ;
    lemma_mod_multiples_basic(ka as int, b as int);
}

/// The least common multiple of two positive numbers.
pub fn least_common_multiple(a: u64, b: u64) -> (common: u128)
    requires
        a > 0,
        b > 0,
    ensures
        common == lcm(a as nat, b as nat),
{
    let mut x: u64 = a;
    let mut y: u64 = b;
    while y != 0
        invariant
            gcd(x as nat, y as nat) == gcd(a as nat, b as nat),
            x > 0 || y > 0,
        decreases y,
    {
        let rest = x % y;
        x = y;
        y = rest;
    }
    proof {
        lemma_gcd_divides(a as nat, b as nat);
    }
    let factor: u64 = b / x;
    assert(a * factor <= 0xffff_ffff_ffff_ffff * 0xffff_ffff_ffff_ffff) by (nonlinear_arith)
        requires
            a <= 0xffff_ffff_ffff_ffff,
            factor <= 0xffff_ffff_ffff_ffff,
    ;
    a as u128 * factor as u128
}

} // verus!
