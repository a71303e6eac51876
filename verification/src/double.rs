//! Amounts as numbers of double precision give them, computed on whole numbers.
//!
//! A double has 53 binary digits. A whole number, a quotient or a decimal that
//! needs more is rounded to the nearest one that does not, and halfway between
//! two to the even one.

use vstd::arithmetic::div_mod::{
    lemma_div_is_ordered, lemma_fundamental_div_mod, lemma_mod_bound,
};
use vstd::prelude::*;
use crate::text::{decimal, decimal_of, padded_decimal, padded_decimal_of, plus3};

verus! {

/// The quotient of `n` and `d` as a whole number: the nearest one, and halfway
/// between two the even one.
pub open spec fn rounded(n: nat, d: nat) -> nat {
    let below = n / d;
    let twice = 2 * (n % d);
    if twice < d || (twice == d && below % 2 == 0) {
        below
    } else {
        below + 1
    }
}

/// The distance between doubles that `n` falls between: the least power of two
/// that leaves `n` 53 binary digits.
pub open spec fn spacing(n: nat) -> nat
    decreases n,
{
    if n < 0x20_0000_0000_0000 {
        1
    } else {
        2 * spacing(n / 2)
    }
}

/// A whole number as a double.
pub open spec fn as_double(n: nat) -> nat {
    rounded(n, spacing(n)) * spacing(n)
}

/// The least power of two that gives the quotient of `n` and `d` 53 binary
/// digits before the point.
pub open spec fn scaling(n: nat, d: nat) -> nat
    decreases 0x20_0000_0000_0000 * d - n,
{
    if n == 0 || n >= 0x10_0000_0000_0000 * d {
        1
    } else {
        2 * scaling(2 * n, d)
    }
}

/// How often a `parts`th of a dollar fits into an amount of micros, where the
/// dollars are a double and the result is rounded to print it.
pub open spec fn printed_parts(micros: nat, parts: nat) -> nat {
    let n = as_double(micros);
    let scale = scaling(n, 1_000_000);
    let scaled_dollars = rounded(n * scale, 1_000_000);
    rounded(scaled_dollars * parts, scale)
}

/// An amount of micros in dollars with decimals: four for parts of 10000, six
/// for parts of 1000000.
pub open spec fn printed_dollars(micros: nat, parts: nat, decimals: nat) -> Seq<char> {
    decimal_of(printed_parts(micros, parts) / parts) + "."@ + padded_decimal_of(
        printed_parts(micros, parts) % parts,
        decimals,
    )
}

/// The quotient of two doubles, as a double, is at most `steps` of size
/// `1 / size`. That is so up to half a step above, halfway included where
/// `steps` is even.
pub open spec fn quotient_within(n: nat, d: nat, steps: nat, size: nat) -> bool {
    2 * (as_double(n) * size) <= as_double(d) * (2 * steps + 1)
}

proof fn rounded_is_near(n: nat, d: nat)
    requires
        d > 0,
    ensures
        n / d <= rounded(n, d) <= n / d + 1,
        n == d * (n / d) + n % d,
        0 <= n % d < d,
{
    lemma_fundamental_div_mod(n as int, d as int);
    lemma_mod_bound(n as int, d as int);
}

/// Rounding does not go beyond a whole number that the quotient does not exceed.
proof fn rounded_is_bounded(n: nat, d: nat, most: nat)
    requires
        d > 0,
        n <= most * d,
    ensures
        rounded(n, d) <= most,
{
    rounded_is_near(n, d);
    let below = n / d;
    assert(below <= most) by (nonlinear_arith)
        requires
            n == d * below + n % d,
            n <= most * d,
            0 <= n % d,
            d > 0,
    ;
    if below == most {
        assert(n % d == 0) by (nonlinear_arith)
            requires
                n == d * below + n % d,
                n <= most * d,
                0 <= n % d,
                below == most,
        ;
    }
}

/// Nor below one that the quotient is not less than.
proof fn rounded_is_not_less(n: nat, d: nat, least: nat)
    requires
        d > 0,
        n >= least * d,
    ensures
        rounded(n, d) >= least,
{
    rounded_is_near(n, d);
    let below = n / d;
    assert(below >= least) by (nonlinear_arith)
        requires
            n == d * below + n % d,
            n >= least * d,
            n % d < d,
            d > 0,
    ;
}

proof fn rounding_keeps_order(a: nat, b: nat, d: nat)
    requires
        d > 0,
        a <= b,
    ensures
        rounded(a, d) <= rounded(b, d),
{
    rounded_is_near(a, d);
    rounded_is_near(b, d);
    lemma_div_is_ordered(a as int, b as int, d as int);
    if a / d == b / d {
        assert(d * (a / d) == d * (b / d));
        assert(a % d <= b % d);
    }
}

proof fn spacing_is_bounded(n: nat)
    ensures
        spacing(n) >= 1,
        n < 0x20_0000_0000_0000 * spacing(n),
        spacing(n) > 1 ==> 0x10_0000_0000_0000 * spacing(n) <= n,
    decreases n,
{
    if n >= 0x20_0000_0000_0000 {
        spacing_is_bounded(n / 2);
    }
}

proof fn spacings_double(a: nat, b: nat)
    requires
        a <= b,
    ensures
        spacing(a) == spacing(b) || 2 * spacing(a) <= spacing(b),
    decreases b,
{
    spacing_is_bounded(b);
    if b >= 0x20_0000_0000_0000 {
        if a >= 0x20_0000_0000_0000 {
            spacings_double(a / 2, b / 2);
        } else {
            spacing_is_bounded(b / 2);
        }
    }
}

/// A larger whole number is no smaller double.
pub proof fn doubles_keep_order(a: nat, b: nat)
    requires
        a <= b,
    ensures
        as_double(a) <= as_double(b),
{
    let (near, far) = (spacing(a), spacing(b));
    spacing_is_bounded(a);
    spacing_is_bounded(b);
    spacings_double(a, b);
    if near == far {
        rounding_keeps_order(a, b, near);
        assert(rounded(a, near) * near <= rounded(b, near) * near) by (nonlinear_arith)
            requires
                rounded(a, near) <= rounded(b, near),
        ;
    } else {
        rounded_is_bounded(a, near, 0x20_0000_0000_0000);
        rounded_is_not_less(b, far, 0x10_0000_0000_0000);
        assert(rounded(a, near) * near <= 0x20_0000_0000_0000 * near) by (nonlinear_arith)
            requires
                rounded(a, near) <= 0x20_0000_0000_0000,
        ;
        assert(0x10_0000_0000_0000 * far <= rounded(b, far) * far) by (nonlinear_arith)
            requires
                0x10_0000_0000_0000 <= rounded(b, far),
        ;
    }
}

/// Whole numbers of at most 53 binary digits are doubles as they are.
pub proof fn small_numbers_are_doubles(n: nat)
    requires
        n < 0x20_0000_0000_0000,
    ensures
        as_double(n) == n,
{
    assert(n / 1 == n && n % 1 == 0) by {
        lemma_fundamental_div_mod(n as int, 1);
        lemma_mod_bound(n as int, 1);
    }
    assert(rounded(n, 1) == n);
    assert(spacing(n) == 1);
}

proof fn double_is_bounded(n: nat)
    requires
        n <= u64::MAX,
    ensures
        as_double(n) <= 0x1_0000_0000_0000_1000,
        spacing(n) <= 0x1000,
        rounded(n, spacing(n)) <= 0x20_0000_0000_0000,
        n > 0 ==> as_double(n) > 0,
{
    spacing_is_bounded(n);
    rounded_is_bounded(n, spacing(n), 0x20_0000_0000_0000);
    rounded_is_near(n, spacing(n));
    let (unit, below, digits) = (spacing(n), n / spacing(n), rounded(n, spacing(n)));
    assert(digits * unit <= n + unit) by (nonlinear_arith)
        requires
            digits <= below + 1,
            n == unit * below + n % unit,
            0 <= n % unit,
    ;
    if n > 0 {
        doubles_keep_order(1, n);
        small_numbers_are_doubles(1);
    }
}

fn rounded_exec(n: u128, d: u128) -> (r: u128)
    requires
        0 < d < 0x1_0000_0000_0000_0000_0000_0000,
        n < 0x1_0000_0000_0000_0000_0000_0000,
    ensures
        r == rounded(n as nat, d as nat),
{
    let below: u128 = n / d;
    let twice: u128 = 2 * (n % d);
    proof {
        lemma_div_is_ordered(n as int, 0xffff_ffff_ffff_ffff_ffff_ffff, d as int);
        assert(n / d <= n) by (nonlinear_arith)
            requires
                d > 0,
        ;
    }
    if twice < d || (twice == d && below % 2 == 0) {
        below
    } else {
        below + 1
    }
}

fn spacing_exec(n: u64) -> (r: u128)
    ensures
        r == spacing(n as nat),
        r <= 0x1000,
    decreases n,
{
    proof {
        double_is_bounded(n as nat);
        if n >= 0x20_0000_0000_0000 {
            double_is_bounded((n / 2) as nat);
        }
    }
    if n < 0x20_0000_0000_0000 {
        1
    } else {
        2 * spacing_exec(n / 2)
    }
}

/// A whole number as a double.
pub fn to_double(n: u64) -> (r: u128)
    ensures
        r == as_double(n as nat),
        r <= 0x1_0000_0000_0000_1000,
{
    let unit: u128 = spacing_exec(n);
    proof {
        double_is_bounded(n as nat);
        spacing_is_bounded(n as nat);
    }
    let digits: u128 = rounded_exec(n as u128, unit);
    digits * unit
}

proof fn scaling_is_bounded(n: nat, d: nat)
    requires
        0 < n < 0x20_0000_0000_0000 * d,
    ensures
        scaling(n, d) >= 1,
        n * scaling(n, d) < 0x20_0000_0000_0000 * d,
    decreases 0x20_0000_0000_0000 * d - n,
{
    if n < 0x10_0000_0000_0000 * d {
        scaling_is_bounded(2 * n, d);
        let s = scaling(2 * n, d);
        assert((2 * n) * s == n * (2 * s)) by (nonlinear_arith);
    } else {
        assert(n * 1 == n);
    }
}

fn scaling_exec(n: u128) -> (r: u128)
    requires
        0 < n < 0x20_0000_0000_0000 * 1_000_000,
    ensures
        r == scaling(n as nat, 1_000_000),
        1 <= r,
        n * r < 0x20_0000_0000_0000 * 1_000_000,
    decreases 0x20_0000_0000_0000 * 1_000_000 - n,
{
    proof {
        scaling_is_bounded(n as nat, 1_000_000);
    }
    if n >= 0x10_0000_0000_0000 * 1_000_000 {
        1
    } else {
        let half: u128 = scaling_exec(2 * n);
        assert(half < 0x20_0000_0000_0000 * 1_000_000) by (nonlinear_arith)
            requires
                (2 * n) * half < 0x20_0000_0000_0000 * 1_000_000,
                n > 0,
        ;
        2 * half
    }
}

fn printed_parts_exec(micros: u64, parts: u128) -> (r: u128)
    requires
        0 < parts <= 1_000_000,
    ensures
        r == printed_parts(micros as nat, parts as nat),
        r / parts <= 0x2000_0000_0000,
{
    let n: u128 = to_double(micros);
    let scale: u128 = if n == 0 {
        1
    } else {
        scaling_exec(n)
    };
    assert(n * scale < 0x20_0000_0000_0000 * 1_000_000) by {
        assert(n == 0 ==> n * scale == 0) by (nonlinear_arith);
    }
    assert(scale <= 0x20_0000_0000_0000 * 1_000_000) by (nonlinear_arith)
        requires
            n == 0 ==> scale == 1,
            n > 0 ==> n * scale < 0x20_0000_0000_0000 * 1_000_000,
            n >= 0,
    ;
    let scaled: u128 = n * scale;
    let dollars: u128 = rounded_exec(scaled, 1_000_000);
    proof {
        assert(scaled <= 0x1_0000_0000_0000_1000 * scale) by (nonlinear_arith)
            requires
                scaled == n * scale,
                n <= 0x1_0000_0000_0000_1000,
        ;
        rounded_is_bounded(scaled as nat, 1_000_000, (0x2000_0000_0000 * scale) as nat);
        rounded_is_bounded(scaled as nat, 1_000_000, 0x20_0000_0000_0000);
        assert(dollars * parts <= 0x20_0000_0000_0000 * 1_000_000) by (nonlinear_arith)
            requires
                dollars <= 0x20_0000_0000_0000,
                parts <= 1_000_000,
        ;
    }
    let r = rounded_exec(dollars * parts, scale);
    proof {
        let most = 0x2000_0000_0000 * parts;
        assert(dollars * parts <= most * scale) by (nonlinear_arith)
            requires
                dollars <= 0x2000_0000_0000 * scale,
                most == 0x2000_0000_0000 * parts,
        ;
        rounded_is_bounded((dollars * parts) as nat, scale as nat, most as nat);
        lemma_fundamental_div_mod(r as int, parts as int);
        lemma_mod_bound(r as int, parts as int);
        assert(r / parts <= 0x2000_0000_0000) by (nonlinear_arith)
            requires
                r == parts * (r / parts) + r % parts,
                r % parts >= 0,
                r <= 0x2000_0000_0000 * parts,
                parts > 0,
        ;
    }
    r
}

/// Prints an amount of micros in dollars.
pub fn print_dollars(micros: u64, parts: u64, decimals: u32) -> (s: String)
    requires
        0 < parts <= 1_000_000,
    ensures
        s@ == printed_dollars(micros as nat, parts as nat, decimals as nat),
{
    let parts = parts as u128;
    let count = printed_parts_exec(micros, parts);
    let whole = decimal((count / parts) as u64);
    let fraction = padded_decimal((count % parts) as u64, decimals);
    plus3(whole.as_str(), ".", fraction.as_str())
}

/// Whether the quotient of two doubles, as a double, is at most `steps` of size
/// `1 / size`.
pub fn quotient_is_within(n: u64, d: u64, steps: u64, size: u128) -> (r: bool)
    requires
        steps < 0x20_0000_0000_0000,
        size <= 0x200_0000_0000_0000,
    ensures
        r == quotient_within(n as nat, d as nat, steps as nat, size as nat),
{
    let n: u128 = to_double(n);
    let d: u128 = to_double(d);
    let odd: u128 = 2 * (steps as u128) + 1;
    assert(n * size <= 0x1_0000_0000_0000_1000 * 0x200_0000_0000_0000) by (nonlinear_arith)
        requires
            n <= 0x1_0000_0000_0000_1000,
            size <= 0x200_0000_0000_0000,
    ;
    assert(d * odd <= 0x1_0000_0000_0000_1000 * 0x40_0000_0000_0000) by (nonlinear_arith)
        requires
            d <= 0x1_0000_0000_0000_1000,
            odd <= 0x40_0000_0000_0000,
    ;
    2 * (n * size) <= d * odd
}

/// A quotient is rounded to the nearest whole number, and to the even one where two
/// are as near.
pub proof fn quotients_are_rounded_to_the_nearest(n: nat, d: nat)
    requires
        d > 0,
    ensures
        2 * n <= 2 * (d * rounded(n, d)) + d,
        2 * (d * rounded(n, d)) <= 2 * n + d,
        2 * n == 2 * (d * rounded(n, d)) + d || 2 * (d * rounded(n, d)) == 2 * n + d ==> rounded(
            n,
            d,
        ) % 2 == 0,
{
    rounded_is_near(n, d);
    let below: nat = n / d;
    assert(d * (below + 1) == d * below + d) by (nonlinear_arith);
}

} // verus!
