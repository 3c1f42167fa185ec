//! Binary double precision on non-negative numbers, carried out with integers.
//!
//! Sizes, shares and durations are shown with one or two decimals of the number that double
//! precision arithmetic gives. Here such a number is held exactly, as an integer or as a
//! fraction whose denominator is a power of two, so that the text shown is known to the digit.

use vstd::prelude::*;

verus! {

/// Significands at or above this need a coarser unit than one: two to the power of 53.
pub const SIGNIFICAND_LIMIT: u128 = 9007199254740992;

/// Half of the significand limit: the smallest normalized significand.
pub const SIGNIFICAND_FLOOR: u128 = 4503599627370496;

/// Bytes in a gibibyte.
pub const GIB: u128 = 1073741824;

/// Bytes in a mebibyte.
pub const MIB: u128 = 1048576;

/// The integer nearest to `n / d`; of two equally near ones, the even one.
pub open spec fn rounded(n: nat, d: nat) -> nat {
    let q = n / d;
    let r = n % d;
    if 2 * r < d || (2 * r == d && q % 2 == 0) {
        q
    } else {
        q + 1
    }
}

/// The spacing of doubles at `n`, for an integer `n`, when it is at least one.
pub open spec fn spacing(n: nat) -> nat
    decreases n,
{
    if n < SIGNIFICAND_LIMIT {
        1
    } else {
        2 * spacing(n / 2)
    }
}

/// The double nearest to the integer `n`.
pub open spec fn double_of(n: nat) -> nat {
    rounded(n, spacing(n)) * spacing(n)
}

/// The double nearest to `a / b`, as numerator and denominator.
///
/// The quotient is scaled by powers of two until its integer part has exactly as many digits
/// as a significand; that integer is rounded, and the scaling undone.
pub open spec fn double_quotient(a: nat, b: nat) -> (nat, nat)
    decreases
            (if a < b * SIGNIFICAND_FLOOR {
                1int
            } else {
                0int
            }),
            (if a < b * SIGNIFICAND_FLOOR {
                b * SIGNIFICAND_FLOOR - a
            } else {
                (a / b) as int
            }),
    when b > 0
{
    if a == 0 {
        (0, 1)
    } else if a < b * SIGNIFICAND_FLOOR {
        let (n, d) = double_quotient(2 * a, b);
        (n, 2 * d)
    } else if a >= b * SIGNIFICAND_LIMIT {
        proof {
            lemma_halved_quotient(a, b);
        }
        let (n, d) = double_quotient(a, 2 * b);
        (2 * n, d)
    } else {
        (rounded(a, b), 1)
    }
}

/// A large quotient shrinks when its divisor doubles.
pub proof fn lemma_halved_quotient(a: nat, b: nat)
    requires
        b > 0,
        a >= b * SIGNIFICAND_LIMIT,
    ensures
        a / (2 * b) < a / b,
{
    assert(a / b >= 1) by (nonlinear_arith)
        requires
            b > 0,
            a >= b * 9007199254740992,
    ;
    vstd::arithmetic::div_mod::lemma_div_denominator(a as int, b as int, 2);
    assert((b as int) * 2 == 2 * b);
}

/// Rounds `n / d` to the nearest integer, ties to even.
pub fn round_quotient(n: u128, d: u128) -> (r: u128)
    requires
        d > 0,
        d <= u128::MAX / 2,
        n < u128::MAX,
    ensures
        r == rounded(n as nat, d as nat),
        r <= n / d + 1,
{
    let q: u128 = n / d;
    let m: u128 = n % d;
    assert(q <= n) by (nonlinear_arith)
        requires
            d > 0,
            q == n / d,
    ;
    if 2 * m < d || (2 * m == d && q % 2 == 0) {
        q
    } else {
        q + 1
    }
}

/// The spacing is a positive number that divides the numbers it applies to into at most a
/// full range of significands.
proof fn lemma_spacing(n: nat)
    ensures
        1 <= spacing(n),
        n < spacing(n) * SIGNIFICAND_LIMIT,
        n >= SIGNIFICAND_LIMIT ==> spacing(n) * SIGNIFICAND_FLOOR <= n,
    decreases n,
{
    if n >= SIGNIFICAND_LIMIT {
        lemma_spacing(n / 2);
        let s = spacing(n / 2);
        assert(n < 2 * s * 9007199254740992) by (nonlinear_arith)
            requires
                n / 2 < s * 9007199254740992,
        ;
        if n / 2 < SIGNIFICAND_LIMIT {
            assert(s == 1);
        }
    }
}

/// Rounding moves a quotient by at most one half.
proof fn lemma_rounded(n: nat, d: nat)
    requires
        d > 0,
    ensures
        2 * (rounded(n, d) * d) <= 2 * n + d,
        2 * n <= 2 * (rounded(n, d) * d) + d,
{
    let q = n / d;
    let r = n % d;
    assert(n == q * d + r) by {
        vstd::arithmetic::div_mod::lemma_fundamental_div_mod(n as int, d as int);
        assert(d * q == q * d) by (nonlinear_arith);
    }
    assert((q + 1) * d == q * d + d) by (nonlinear_arith);
    assert(0 <= r < d) by (nonlinear_arith)
        requires
            d > 0,
            r == n % d,
    ;
}

/// Rounds an integer to the nearest double.
pub fn round_to_double(n: u128) -> (r: u128)
    requires
        n < 0x1_0000_0000_0000_0000_0000_0000,
    ensures
        r == double_of(n as nat),
        r <= 2 * n,
        n > 0 ==> r > 0,
{
    let mut unit: u128 = 1;
    let mut m: u128 = n;
    while m >= SIGNIFICAND_LIMIT
        invariant
            unit >= 1,
            unit * spacing(m as nat) == spacing(n as nat),
            unit * m <= n,
            n < 0x1_0000_0000_0000_0000_0000_0000,
        decreases m,
    {
        assert((2 * unit) * spacing((m / 2) as nat) == unit * (2 * spacing((m / 2) as nat)))
            by (nonlinear_arith);
        assert((2 * unit) * (m / 2) <= unit * m) by (nonlinear_arith)
            requires
                unit >= 1,
                2 * (m / 2) <= m,
        ;
        assert(unit * 1 <= unit * m) by (nonlinear_arith)
            requires
                unit >= 1,
                m >= 1,
        ;
        unit = 2 * unit;
        m = m / 2;
    }
    proof {
        assert(spacing(m as nat) == 1);
        assert(unit == spacing(n as nat)) by (nonlinear_arith)
            requires
                unit * spacing(m as nat) == spacing(n as nat),
                spacing(m as nat) == 1,
        ;
        lemma_spacing(n as nat);
    }
    let q: u128 = round_quotient(n, unit);
    proof {
        lemma_rounded(n as nat, unit as nat);
        if n < SIGNIFICAND_LIMIT {
            assert(unit == 1);
            assert(q * unit == q);
        }
    }
    q * unit
}

/// Divides two integers to the nearest double.
pub fn divide_to_double(a: u128, b: u128) -> (r: (u128, u128))
    requires
        0 < b <= 0x2_0000_0000_0000_0000,
        a < b * SIGNIFICAND_LIMIT || a < 0x200_0000_0000_0000_0000,
    ensures
        (r.0 as nat, r.1 as nat) == double_quotient(a as nat, b as nat),
        r.1 >= 1,
        r.1 < 0x40_0000_0000_0000_0000_0000_0000_0000,
        a > 0 && a < b * SIGNIFICAND_LIMIT ==> r.1 * a < b * SIGNIFICAND_LIMIT,
        a < b * SIGNIFICAND_LIMIT ==> r.0 <= SIGNIFICAND_LIMIT,
        a >= b * SIGNIFICAND_FLOOR ==> r.1 == 1 && r.0 * b <= 2 * a,
    decreases
            (if a < b * SIGNIFICAND_FLOOR {
                1int
            } else {
                0int
            }),
            (if a < b * SIGNIFICAND_FLOOR {
                b * SIGNIFICAND_FLOOR - a
            } else {
                (a / b) as int
            }),
{
    if a == 0 {
        (0, 1)
    } else if a < b * SIGNIFICAND_FLOOR {
        let r: (u128, u128) = divide_to_double(2 * a, b);
        proof {
            assert((2 * r.1) * a == r.1 * (2 * a)) by (nonlinear_arith);
            assert(2 * r.1 < 0x40_0000_0000_0000_0000_0000_0000_0000) by (nonlinear_arith)
                requires
                    (2 * r.1) * a < b * 9007199254740992,
                    a >= 1,
                    b <= 0x2_0000_0000_0000_0000,
            ;
        }
        (r.0, 2 * r.1)
    } else if a >= b * SIGNIFICAND_LIMIT {
        proof {
            lemma_halved_quotient(a as nat, b as nat);
        }
        let r: (u128, u128) = divide_to_double(a, 2 * b);
        proof {
            assert((2 * r.0) * b == r.0 * (2 * b)) by (nonlinear_arith);
            assert(2 * r.0 <= 2 * a) by (nonlinear_arith)
                requires
                    (2 * r.0) * b <= 2 * a,
                    b >= 1,
            ;
        }
        (2 * r.0, r.1)
    } else {
        let q: u128 = round_quotient(a, b);
        proof {
            assert(a / b < 9007199254740992) by (nonlinear_arith)
                requires
                    b > 0,
                    a < b * 9007199254740992,
            ;
            lemma_rounded(a as nat, b as nat);
        }
        (q, 1)
    }
}


/// Integers below the significand limit are doubles.
pub proof fn small_integers_are_exact(n: nat)
    requires
        n < SIGNIFICAND_LIMIT,
    ensures
        double_of(n) == n,
{
    assert(n / 1 == n && n % 1 == 0);
    assert(rounded(n, 1) == n);
    assert(n * 1 == n);
}

/// A double quotient is a scaled quotient, rounded to a full significand.
pub proof fn lemma_quotient_scaled(a: nat, b: nat)
    requires
        0 < a < b * SIGNIFICAND_LIMIT,
    ensures
        double_quotient(a, b).1 >= 1,
        double_quotient(a, b).0 == rounded(double_quotient(a, b).1 * a, b),
        double_quotient(a, b).1 * a >= b * SIGNIFICAND_FLOOR,
    decreases
            (if a < b * SIGNIFICAND_FLOOR {
                b * SIGNIFICAND_FLOOR - a
            } else {
                0
            }),
{
    if a < b * SIGNIFICAND_FLOOR {
        lemma_quotient_scaled(2 * a, b);
        let d = double_quotient(2 * a, b).1;
        assert((2 * d) * a == d * (2 * a)) by (nonlinear_arith);
    } else {
        assert(1 * a == a);
    }
}

/// Rounding does not pass an integer: a quotient at most `m` rounds to at most `m`.
pub proof fn lemma_rounded_at_most(n: nat, d: nat, m: nat)
    requires
        d > 0,
        n <= m * d,
    ensures
        rounded(n, d) <= m,
{
    let q = n / d;
    let r = n % d;
    vstd::arithmetic::div_mod::lemma_fundamental_div_mod(n as int, d as int);
    assert(q <= m) by (nonlinear_arith)
        requires
            n == d * q + r,
            r >= 0,
            n <= m * d,
            d > 0,
    ;
    if q == m {
        assert(r == 0) by (nonlinear_arith)
            requires
                n == d * q + r,
                r >= 0,
                n <= m * d,
                q == m,
        ;
    }
}

/// A quotient that exceeds `m` by more than one half rounds to more than `m`.
pub proof fn lemma_rounded_above(n: nat, d: nat, m: nat)
    requires
        d > 0,
        2 * n > 2 * (m * d) + d,
    ensures
        rounded(n, d) > m,
{
    let q = n / d;
    let r = n % d;
    vstd::arithmetic::div_mod::lemma_fundamental_div_mod(n as int, d as int);
    assert(r < d) by (nonlinear_arith)
        requires
            d > 0,
            r == n % d,
    ;
    assert(q >= m) by (nonlinear_arith)
        requires
            n == d * q + r,
            r < d,
            2 * n > 2 * (m * d) + d,
            d > 0,
    ;
    if q == m {
        assert(2 * r > d) by (nonlinear_arith)
            requires
                n == d * q + r,
                2 * n > 2 * (m * d) + d,
                q == m,
        ;
    }
}

/// Rounding gives the nearest integer, and the even one of two that are equally near.
pub proof fn rounding_is_to_the_nearest(n: nat, d: nat)
    requires
        d > 0,
    ensures
        2 * (rounded(n, d) * d) <= 2 * n + d,
        2 * n <= 2 * (rounded(n, d) * d) + d,
        2 * n == 2 * (rounded(n, d) * d) + d || 2 * (rounded(n, d) * d) == 2 * n + d ==> rounded(
            n,
            d,
        ) % 2 == 0,
{
    lemma_rounded(n, d);
    let q = n / d;
    let r = n % d;
    assert(n == q * d + r) by {
        vstd::arithmetic::div_mod::lemma_fundamental_div_mod(n as int, d as int);
        assert(d * q == q * d) by (nonlinear_arith);
    }
    assert((q + 1) * d == q * d + d) by (nonlinear_arith);
    assert(0 <= r < d) by (nonlinear_arith)
        requires
            d > 0,
            r == n % d,
    ;
}

/// A fraction within half of an integer rounds to that integer.
pub proof fn near_fractions_round_to_the_integer(n: nat, d: nat, m: nat)
    requires
        d > 0,
        2 * n < 2 * (m * d) + d,
        2 * (m * d) < 2 * n + d,
    ensures
        rounded(n, d) == m,
{
    rounding_is_to_the_nearest(n, d);
    let q = rounded(n, d);
    if q > m {
        assert(q * d >= m * d + d) by (nonlinear_arith)
            requires
                q >= m + 1,
                d > 0,
        ;
    }
    if q < m {
        assert(q * d + d <= m * d) by (nonlinear_arith)
            requires
                q + 1 <= m,
                d > 0,
        ;
    }
}

} // verus!
