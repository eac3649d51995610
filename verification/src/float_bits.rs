//! Floating-point numbers as bit patterns.
//!
//! The renderer hands three 32-bit floats to the fragment shader and a
//! few more to the fixed-function pipeline. This module produces their
//! IEEE 754 bit patterns with integer arithmetic alone, so that what
//! reaches the GPU is stated exactly.
//!
//! The simulation clock is a 64-bit float and is narrowed to 32 bits for
//! the shader. A 32-bit float carries 24 significant bits: from 2^23
//! seconds on (about 97 days) it can no longer tell half seconds apart,
//! and from 2^24 seconds on not even whole ones.

use vstd::arithmetic::power2::{
    lemma2_to64, lemma2_to64_rest, lemma_pow2_adds, lemma_pow2_pos, lemma_pow2_strictly_increases,
    lemma_pow2_unfold, pow2,
};
use vstd::prelude::*;

verus! {

/// The bits of `0.0f32`.
pub const F32_ZERO: u32 = 0;

/// The bits of `1.0f32`.
pub const F32_ONE: u32 = 0x3f80_0000;

/// The bits of `-1.0f32`.
pub const F32_MINUS_ONE: u32 = 0xbf80_0000;

/// The bits of positive infinity as a 32-bit float.
pub const F32_INFINITY: u32 = 0x7f80_0000;

/// The bits of the quiet NaN that narrowing gives for a NaN.
pub const F32_QUIET_NAN: u32 = 0x7fc0_0000;

/// The sign bit of a 32-bit float.
pub const F32_SIGN: u32 = 0x8000_0000;

/// The magnitude of a finite 32-bit float, in units of 2^-149: the
/// fraction itself for a subnormal, and the significand with its hidden
/// bit, scaled by the exponent, for a normal number.
pub open spec fn f32_magnitude(bits: u32) -> nat {
    let exponent = (bits / 0x80_0000) % 0x100;
    let fraction = bits % 0x80_0000;
    if exponent == 0 {
        fraction as nat
    } else {
        ((0x80_0000 + fraction) * pow2((exponent - 1) as nat)) as nat
    }
}

/// The exponent field of a 64-bit float.
pub open spec fn f64_exponent(bits: u64) -> int {
    ((bits / 0x10_0000_0000_0000) % 0x800) as int
}

/// The fraction field of a 64-bit float.
pub open spec fn f64_fraction(bits: u64) -> int {
    (bits % 0x10_0000_0000_0000) as int
}

/// `n / d` rounded to the nearest integer, a tie going to the even one.
pub open spec fn round_half_even(n: nat, d: nat) -> nat {
    let q = n / d;
    let r = n % d;
    if 2 * r < d {
        q
    } else if 2 * r > d {
        q + 1
    } else if q % 2 == 0 {
        q
    } else {
        q + 1
    }
}

/// The 32-bit float nearest to a 64-bit float, a tie going to the one
/// with the even significand; the sign is kept.
///
/// A normal number `m * 2^(e - 1075)`, with `m` the 53-bit significand,
/// lies in the part of the 32-bit grid whose step is `2^29` times the
/// step of `m`, or more where the result is subnormal. Rounding `m` to
/// that step and adding the exponent gives the result: a significand
/// that rounds up to the next power of two carries into the exponent, and
/// past the largest exponent into infinity. Anything below half the
/// smallest subnormal, every subnormal 64-bit float among it, becomes
/// zero. Infinity stays infinity, and a NaN becomes the quiet NaN.
pub open spec fn narrowed(bits: u64) -> u32 {
    let sign: int = if bits >= 0x8000_0000_0000_0000 {
        F32_SIGN as int
    } else {
        0
    };
    let e = f64_exponent(bits);
    let f = f64_fraction(bits);
    if e == 0x7ff {
        if f == 0 {
            (sign + F32_INFINITY) as u32
        } else {
            (sign + F32_QUIET_NAN) as u32
        }
    } else if e == 0 {
        sign as u32
    } else {
        let m = (0x10_0000_0000_0000 + f) as nat;
        let step: nat = if e > 896 {
            29
        } else {
            (926 - e) as nat
        };
        let base = if e > 896 {
            (e - 897) * 0x80_0000
        } else {
            0
        };
        let magnitude = base + round_half_even(m, pow2(step));
        if magnitude >= F32_INFINITY {
            (sign + F32_INFINITY) as u32
        } else {
            (sign + magnitude) as u32
        }
    }
}

/// Rounding to the nearest integer, ties to even, is what its name says:
/// the result is within half a step of `n / d`, and where it is exactly
/// half a step away it is even.
pub proof fn lemma_round_half_even_is_nearest(n: nat, d: nat)
    requires
        d > 0,
    ensures
        ({
            let q = round_half_even(n, d);
            &&& 2 * (q * d - n) <= d
            &&& 2 * (n - q * d) <= d
            &&& (2 * (q * d - n) == d || 2 * (n - q * d) == d) ==> q % 2 == 0
        }),
{
    let q = n / d;
    vstd::arithmetic::div_mod::lemma_fundamental_div_mod(n as int, d as int);
    assert((q + 1) * d == q * d + d) by (nonlinear_arith);
}

/// A number that the step divides is not changed by rounding.
pub proof fn lemma_round_half_even_exact(q: nat, d: nat)
    requires
        d > 0,
    ensures
        round_half_even(q * d, d) == q,
{
    vstd::arithmetic::div_mod::lemma_fundamental_div_mod_converse(
        (q * d) as int,
        d as int,
        q as int,
        0,
    );
}

/// Whether the bits are those of a normal 32-bit float: neither zero nor
/// subnormal, neither infinite nor a NaN.
pub open spec fn is_normal_f32(bits: u32) -> bool {
    let exponent = (bits / 0x80_0000) % 0x100;
    1 <= exponent <= 0xfe
}

/// The 64-bit float that has the value of a normal 32-bit float: the
/// same sign, the exponent moved to the wider bias, and the fraction with
/// 29 zero bits after it.
pub open spec fn widened(bits: u32) -> u64 {
    let sign = bits / 0x8000_0000;
    let exponent = (bits / 0x80_0000) % 0x100;
    let fraction = bits % 0x80_0000;
    (sign * 0x8000_0000_0000_0000 + (exponent + 896) * 0x10_0000_0000_0000 + fraction
        * 0x2000_0000) as u64
}

/// Narrowing loses nothing that a 32-bit float can hold: a 64-bit float
/// whose value is that of a normal 32-bit float is narrowed to exactly
/// that float.
pub proof fn lemma_narrowing_undoes_widening(bits: u32)
    requires
        is_normal_f32(bits),
    ensures
        narrowed(widened(bits)) == bits,
{
    // the significand of the wide float is that of the narrow one, times
    // the 2^29 that rounding divides by
    let fraction = (bits % 0x80_0000) as int;
    lemma2_to64();
    lemma_round_half_even_exact((0x80_0000 + fraction) as nat, pow2(29));
}

/// The magnitude of a finite 64-bit float, in units of 2^-1074: the
/// fraction itself for a subnormal, and the significand with its hidden
/// bit, scaled by the exponent, for a normal number.
pub open spec fn f64_magnitude(bits: u64) -> nat {
    let exponent = f64_exponent(bits);
    let fraction = f64_fraction(bits);
    if exponent == 0 {
        fraction as nat
    } else {
        ((0x10_0000_0000_0000 + fraction) * pow2((exponent - 1) as nat)) as nat
    }
}

/// The bits of a 32-bit float without its sign.
pub open spec fn f32_abs(bits: u32) -> u32 {
    (bits % 0x8000_0000) as u32
}

/// Narrowing rounds to the nearest 32-bit float. For a 64-bit float in
/// the range where 32-bit floats are normal, and short of overflowing,
/// the result is no further from it than half the distance between
/// neighbouring 32-bit floats of its size, which is `2^29` steps of the
/// 64-bit float; and where it is exactly that far, the result is the
/// neighbour with the even fraction. Both values are measured here in
/// units of `2^-1074`, of which the unit of a 32-bit magnitude holds
/// `2^925`. The sign is that of the input.
pub proof fn lemma_narrowing_is_nearest(bits: u64)
    requires
        896 < f64_exponent(bits) < 0x7ff,
        f32_abs(narrowed(bits)) < F32_INFINITY,
    ensures
        ({
            let narrow = f32_abs(narrowed(bits));
            let exact = f64_magnitude(bits) as int;
            let rounded = f32_magnitude(narrow) * pow2(925);
            let half_step = pow2(28) * pow2((f64_exponent(bits) - 1) as nat);
            &&& rounded - exact <= half_step
            &&& exact - rounded <= half_step
            &&& (rounded - exact == half_step || exact - rounded == half_step) ==> narrow % 2 == 0
            &&& narrowed(bits) >= F32_SIGN <==> bits >= 0x8000_0000_0000_0000
        }),
{
    let e = f64_exponent(bits);
    let f = f64_fraction(bits);
    let m = (0x10_0000_0000_0000 + f) as nat;
    lemma2_to64();
    lemma2_to64_rest();
    let q = round_half_even(m, pow2(29));
    lemma_round_half_even_is_nearest(m, pow2(29));
    let narrow = f32_abs(narrowed(bits));
    let scale = pow2((e - 897) as nat);
    lemma_pow2_pos((e - 897) as nat);
    // the magnitude of the result is the rounded significand times its
    // scale, also where the significand has rounded up to 2^24 and has
    // been carried into the exponent
    assert(f32_magnitude(narrow) == q * scale) by {
        if q >= 0x100_0000 {
            lemma_pow2_unfold((e - 896) as nat);
            assert(0x80_0000 * (2 * scale) == 0x100_0000 * scale) by (nonlinear_arith);
        }
    }
    // both values in units of 2^-1074
    let unit = pow2((e - 1) as nat);
    lemma_pow2_pos((e - 1) as nat);
    lemma_pow2_adds((e - 897) as nat, 925);
    lemma_pow2_adds(29, (e - 1) as nat);
    let exact = f64_magnitude(bits) as int;
    let rounded = f32_magnitude(narrow) * pow2(925);
    assert(rounded == q * 0x2000_0000 * unit) by (nonlinear_arith)
        requires
            rounded == q * scale * pow2(925),
            scale * pow2(925) == 0x2000_0000 * unit,
    ;
    let half_step = pow2(28) * unit;
    let off = q * 0x2000_0000 - m;
    assert(rounded - exact == off * unit) by (nonlinear_arith)
        requires
            rounded == q * 0x2000_0000 * unit,
            exact == m * unit,
            off == q * 0x2000_0000 - m,
    ;
    assert(off * unit <= 0x1000_0000 * unit && -(off * unit) <= 0x1000_0000 * unit)
        by (nonlinear_arith)
        requires
            -0x1000_0000 <= off <= 0x1000_0000,
            unit > 0,
    ;
    if rounded - exact == half_step || exact - rounded == half_step {
        assert(off == 0x1000_0000 || off == -0x1000_0000) by (nonlinear_arith)
            requires
                off * unit == 0x1000_0000 * unit || -(off * unit) == 0x1000_0000 * unit,
                unit > 0,
        ;
    }
}

/// The bits of `8_388_608.0f64`, which is 2^23: the first clock reading
/// that is too large for a 32-bit float to tell half seconds apart.
pub const CLOCK_LIMIT: u64 = 0x4160_0000_0000_0000;

/// Whether the bits are those of a clock reading that a 32-bit float
/// still follows by the half second: a time that is not negative and
/// less than 2^23 seconds, which is a little more than 97 days.
pub open spec fn is_clock_reading(bits: u64) -> bool {
    bits < CLOCK_LIMIT
}

/// A quotient that lies between two whole numbers is rounded to a number
/// between them.
proof fn lemma_round_half_even_bounds(n: nat, d: nat, low: nat, high: nat)
    requires
        d > 0,
        low * d <= n < high * d,
    ensures
        low <= round_half_even(n, d) <= high,
{
    let q = n / d;
    let r = n % d;
    vstd::arithmetic::div_mod::lemma_fundamental_div_mod(n as int, d as int);
    assert(low <= q < high) by (nonlinear_arith)
        requires
            n == d * q + r,
            0 <= r < d,
            low * d <= n < high * d,
    ;
}

/// Rounding keeps the order.
proof fn lemma_round_half_even_monotone(n1: nat, n2: nat, d: nat)
    requires
        d > 0,
        n1 <= n2,
    ensures
        round_half_even(n1, d) <= round_half_even(n2, d),
{
    let q1 = n1 / d;
    let q2 = n2 / d;
    vstd::arithmetic::div_mod::lemma_fundamental_div_mod(n1 as int, d as int);
    vstd::arithmetic::div_mod::lemma_fundamental_div_mod(n2 as int, d as int);
    vstd::arithmetic::div_mod::lemma_div_is_ordered(n1 as int, n2 as int, d as int);
    if q1 == q2 {
        let r1 = n1 % d;
        let r2 = n2 % d;
        assert(r1 <= r2) by (nonlinear_arith)
            requires
                n1 == d * q1 + r1,
                n2 == d * q1 + r2,
                n1 <= n2,
        ;
    }
}

/// What narrowing does to a clock reading in the range where 32-bit
/// floats are normal: the significand is rounded to 24 bits and put
/// after the exponent, into which it carries where it has rounded up to
/// 2^24. Both magnitudes are given in units of `2^-1074`.
proof fn lemma_narrowed_clock_normal(bits: u64)
    requires
        is_clock_reading(bits),
        896 < f64_exponent(bits),
    ensures
        ({
            let e = f64_exponent(bits);
            let m = (0x10_0000_0000_0000 + f64_fraction(bits)) as nat;
            let q = round_half_even(m, pow2(29));
            let unit = pow2((e - 1) as nat);
            &&& e <= 1045
            &&& 0x80_0000 <= q <= 0x100_0000
            &&& narrowed(bits) == (e - 897) * 0x80_0000 + q
            &&& narrowed(bits) < F32_INFINITY
            &&& f32_magnitude(narrowed(bits)) * pow2(925) == q * (pow2(29) * unit)
            &&& f64_magnitude(bits) == m * unit
        }),
{
    let e = f64_exponent(bits);
    let m = (0x10_0000_0000_0000 + f64_fraction(bits)) as nat;
    lemma2_to64();
    lemma2_to64_rest();
    let q = round_half_even(m, pow2(29));
    lemma_round_half_even_bounds(m, pow2(29), 0x80_0000, 0x100_0000);
    let narrow = narrowed(bits);
    assert(narrow == (e - 897) * 0x80_0000 + q);
    let scale = pow2((e - 897) as nat);
    lemma_pow2_pos((e - 897) as nat);
    assert(f32_magnitude(narrow) == q * scale) by {
        if q >= 0x100_0000 {
            assert(narrow / 0x80_0000 == e - 895);
            assert(narrow % 0x80_0000 == 0);
            lemma_pow2_unfold((e - 896) as nat);
            assert(0x80_0000 * (2 * scale) == 0x100_0000 * scale) by (nonlinear_arith);
        } else {
            assert(narrow / 0x80_0000 == e - 896);
            assert(narrow % 0x80_0000 == q - 0x80_0000);
        }
    }
    let unit = pow2((e - 1) as nat);
    lemma_pow2_adds((e - 897) as nat, 925);
    lemma_pow2_adds(29, (e - 1) as nat);
    assert((e - 897 + 925) as nat == (29 + (e - 1)) as nat);
    assert(q * scale * pow2(925) == q * (pow2(29) * unit)) by (nonlinear_arith)
        requires
            scale * pow2(925) == pow2(29) * unit,
    ;
}

/// What narrowing does to a clock reading below the range where 32-bit
/// floats are normal: the result is subnormal, or the smallest normal
/// number, and its bits are its magnitude in units of `2^-149`.
proof fn lemma_narrowed_clock_small(bits: u64)
    requires
        is_clock_reading(bits),
        1 <= f64_exponent(bits) <= 896,
    ensures
        ({
            let e = f64_exponent(bits);
            let m = (0x10_0000_0000_0000 + f64_fraction(bits)) as nat;
            let q = round_half_even(m, pow2((926 - e) as nat));
            &&& q <= 0x80_0000
            &&& narrowed(bits) == q
            &&& f32_magnitude(narrowed(bits)) == q
            &&& f64_magnitude(bits) == m * pow2((e - 1) as nat)
        }),
{
    let e = f64_exponent(bits);
    let m = (0x10_0000_0000_0000 + f64_fraction(bits)) as nat;
    let step = (926 - e) as nat;
    let d = pow2(step);
    lemma2_to64();
    lemma2_to64_rest();
    if step > 30 {
        lemma_pow2_strictly_increases(30, step);
    }
    assert(pow2(30) == 0x4000_0000);
    assert(m < 0x80_0000 * d) by (nonlinear_arith)
        requires
            m < 0x20_0000_0000_0000,
            d >= 0x4000_0000,
    ;
    lemma_round_half_even_bounds(m, d, 0, 0x80_0000);
    let q = round_half_even(m, d);
    let narrow = narrowed(bits);
    assert(narrow == q);
    if q == 0x80_0000 {
        assert(narrow / 0x80_0000 == 1);
        assert(narrow % 0x80_0000 == 0);
        assert(pow2(0) == 1);
    } else {
        assert(narrow / 0x80_0000 == 0);
    }
}

/// A quarter of a second in units of `2^-1074`.
pub open spec fn quarter_second() -> nat {
    pow2(1072)
}

/// Half a second in units of `2^-1074`.
pub open spec fn half_second() -> nat {
    pow2(1073)
}

/// The clock on the GPU is never more than a quarter of a second off.
/// For a clock reading of less than 2^23 seconds the narrowed value is a
/// finite 32-bit float that is not negative and differs from the reading
/// by a quarter of a second at most.
pub proof fn lemma_clock_is_within_a_quarter_second(bits: u64)
    requires
        is_clock_reading(bits),
    ensures
        narrowed(bits) < F32_INFINITY,
        f32_magnitude(narrowed(bits)) * pow2(925) - f64_magnitude(bits) <= quarter_second(),
        f64_magnitude(bits) - f32_magnitude(narrowed(bits)) * pow2(925) <= quarter_second(),
{
    let e = f64_exponent(bits);
    let m = (0x10_0000_0000_0000 + f64_fraction(bits)) as nat;
    lemma2_to64();
    lemma2_to64_rest();
    if e == 0 {
        lemma_pow2_strictly_increases(52, 1072);
        assert(pow2(52) == 0x10_0000_0000_0000);
        assert(0 * pow2(925) == 0);
    } else if e <= 896 {
        lemma_narrowed_clock_small(bits);
        let q = round_half_even(m, pow2((926 - e) as nat));
        let unit = pow2((e - 1) as nat);
        // both the reading and the result are at most 2^948 units
        lemma_pow2_adds(23, 925);
        lemma_pow2_adds(53, 895);
        lemma_pow2_strictly_increases(948, 1072);
        lemma_pow2_pos((e - 1) as nat);
        if e - 1 < 895 {
            lemma_pow2_strictly_increases((e - 1) as nat, 895);
        }
        assert(pow2(23) == 0x80_0000 && pow2(53) == 0x20_0000_0000_0000);
        assert(q * pow2(925) <= pow2(23) * pow2(925)) by (nonlinear_arith)
            requires
                q <= pow2(23),
        ;
        assert(m * unit <= pow2(53) * pow2(895)) by (nonlinear_arith)
            requires
                m <= pow2(53),
                unit <= pow2(895),
        ;
    } else {
        lemma_narrowed_clock_normal(bits);
        let q = round_half_even(m, pow2(29));
        let unit = pow2((e - 1) as nat);
        lemma_round_half_even_is_nearest(m, pow2(29));
        lemma_pow2_pos((e - 1) as nat);
        lemma_pow2_adds(28, (e - 1) as nat);
        if e + 27 < 1072 {
            lemma_pow2_strictly_increases((28 + (e - 1)) as nat, 1072);
        }
        lemma_pow2_unfold(29);
        let off = q * pow2(29) - m;
        assert(q * (pow2(29) * unit) - m * unit == off * unit) by (nonlinear_arith)
            requires
                off == q * pow2(29) - m,
        ;
        assert(off * unit <= pow2(28) * unit && -(off * unit) <= pow2(28) * unit)
            by (nonlinear_arith)
            requires
                2 * off <= 2 * pow2(28),
                -2 * off <= 2 * pow2(28),
                unit > 0,
        ;
    }
}

/// The clock on the GPU keeps its half seconds. A clock reading of less
/// than 2^23 seconds that is a whole number of half seconds is narrowed
/// to exactly its own value.
pub proof fn lemma_clock_keeps_half_seconds(bits: u64)
    requires
        is_clock_reading(bits),
        f64_magnitude(bits) % half_second() == 0,
    ensures
        f32_magnitude(narrowed(bits)) * pow2(925) == f64_magnitude(bits),
{
    let e = f64_exponent(bits);
    let m = (0x10_0000_0000_0000 + f64_fraction(bits)) as nat;
    let exact = f64_magnitude(bits);
    let half = half_second();
    lemma2_to64();
    lemma2_to64_rest();
    lemma_pow2_pos(1073);
    if e == 0 {
        // less than half a second and a multiple of it: zero
        lemma_pow2_strictly_increases(52, 1073);
        assert(pow2(52) == 0x10_0000_0000_0000);
        vstd::arithmetic::div_mod::lemma_small_mod(exact, half);
        assert(0 * pow2(925) == 0);
    } else if e <= 896 {
        // more than nothing and less than half a second: no multiple
        let unit = pow2((e - 1) as nat);
        lemma_narrowed_clock_small(bits);
        lemma_pow2_pos((e - 1) as nat);
        lemma_pow2_adds(53, 895);
        lemma_pow2_strictly_increases(948, 1073);
        if e - 1 < 895 {
            lemma_pow2_strictly_increases((e - 1) as nat, 895);
        }
        assert(pow2(53) == 0x20_0000_0000_0000);
        assert(0 < m * unit <= pow2(53) * pow2(895)) by (nonlinear_arith)
            requires
                0 < m <= pow2(53),
                0 < unit <= pow2(895),
        ;
        vstd::arithmetic::div_mod::lemma_small_mod(exact, half);
    } else {
        lemma_narrowed_clock_normal(bits);
        let unit = pow2((e - 1) as nat);
        let spare = pow2((1045 - e) as nat);
        lemma_pow2_pos((e - 1) as nat);
        // half a second is 2^29 * spare steps of the significand
        lemma_pow2_adds(29, (1045 - e) as nat);
        lemma_pow2_adds((1074 - e) as nat, (e - 1) as nat);
        assert((29 + (1045 - e)) as nat == (1074 - e) as nat);
        assert(((1074 - e) + (e - 1)) as nat == 1073);
        let count = exact / half;
        vstd::arithmetic::div_mod::lemma_fundamental_div_mod(exact as int, half as int);
        assert(m == (count * spare) * pow2(29)) by (nonlinear_arith)
            requires
                m * unit == half * count,
                half == (pow2(29) * spare) * unit,
                unit > 0,
        ;
        lemma_pow2_pos(29);
        lemma_round_half_even_exact(count * spare, pow2(29));
        let q = round_half_even(m, pow2(29));
        assert(q * (pow2(29) * unit) == m * unit) by (nonlinear_arith)
            requires
                m == q * pow2(29),
        ;
    }
}

/// The clock on the GPU does not run backwards. Of two clock readings of
/// less than 2^23 seconds the later one is narrowed to a value that is
/// not the smaller: for floats that are not negative the order of the
/// bits is the order of the values.
pub proof fn lemma_clock_narrowing_is_monotone(earlier: u64, later: u64)
    requires
        earlier <= later,
        is_clock_reading(later),
    ensures
        narrowed(earlier) <= narrowed(later),
{
    let e1 = f64_exponent(earlier);
    let e2 = f64_exponent(later);
    let m1 = (0x10_0000_0000_0000 + f64_fraction(earlier)) as nat;
    let m2 = (0x10_0000_0000_0000 + f64_fraction(later)) as nat;
    lemma2_to64();
    lemma2_to64_rest();
    assert(e1 <= e2);
    assert(e1 == e2 ==> m1 <= m2);
    if e1 == 0 {
    } else if e2 <= 896 {
        lemma_narrowed_clock_small(earlier);
        lemma_narrowed_clock_small(later);
        let k1 = (926 - e1) as nat;
        let k2 = (926 - e2) as nat;
        lemma_pow2_pos(k1);
        lemma_pow2_pos(k2);
        if e1 == e2 {
            lemma_round_half_even_monotone(m1, m2, pow2(k1));
        } else if k1 >= 54 {
            // the earlier reading is less than half the smallest step
            if k1 > 54 {
                lemma_pow2_strictly_increases(54, k1);
            }
            assert(pow2(54) == 0x40_0000_0000_0000);
            vstd::arithmetic::div_mod::lemma_small_mod(m1, pow2(k1));
            vstd::arithmetic::div_mod::lemma_basic_div(m1 as int, pow2(k1) as int);
        } else {
            // a whole number lies between the two quotients
            let between = pow2((53 - k1) as nat);
            let least = pow2((52 - k2) as nat);
            lemma_pow2_adds((53 - k1) as nat, k1);
            lemma_pow2_adds((52 - k2) as nat, k2);
            assert(((53 - k1) + k1) as nat == 53 && ((52 - k2) + k2) as nat == 52);
            assert(pow2(53) == 0x20_0000_0000_0000 && pow2(52) == 0x10_0000_0000_0000);
            if 52 - k2 > 53 - k1 {
                lemma_pow2_strictly_increases((53 - k1) as nat, (52 - k2) as nat);
            }
            assert(0 * pow2(k1) == 0);
            lemma_round_half_even_bounds(m1, pow2(k1), 0, between);
            assert((least + 0x20_0000_0000_0000) * pow2(k2) >= 0x20_0000_0000_0000)
                by (nonlinear_arith)
                requires
                    pow2(k2) >= 1,
                    least >= 0,
            ;
            lemma_round_half_even_bounds(
                m2,
                pow2(k2),
                least,
                (least + 0x20_0000_0000_0000) as nat,
            );
        }
    } else if e1 <= 896 {
        lemma_narrowed_clock_small(earlier);
        lemma_narrowed_clock_normal(later);
    } else {
        lemma_narrowed_clock_normal(earlier);
        lemma_narrowed_clock_normal(later);
        if e1 == e2 {
            lemma_pow2_pos(29);
            lemma_round_half_even_monotone(m1, m2, pow2(29));
        }
    }
}

/// The magnitude of a normal 32-bit float lies in the range of its
/// exponent: from `2^23` to below `2^24`, scaled by the exponent.
proof fn lemma_f32_magnitude_range(bits: u32)
    requires
        bits < F32_INFINITY,
    ensures
        ({
            let exponent = bits / 0x80_0000;
            &&& exponent < 0xff
            &&& (bits / 0x80_0000) % 0x100 == exponent
            &&& exponent == 0 ==> f32_magnitude(bits) < 0x80_0000
            &&& exponent > 0 ==> 0x80_0000 * pow2((exponent - 1) as nat) <= f32_magnitude(bits)
                < 0x80_0000 * pow2(exponent as nat)
        }),
{
    let exponent = bits / 0x80_0000;
    let fraction = bits % 0x80_0000;
    if exponent > 0 {
        let p = pow2((exponent - 1) as nat);
        lemma_pow2_pos((exponent - 1) as nat);
        lemma_pow2_unfold(exponent as nat);
        assert(0x80_0000 * p <= (0x80_0000 + fraction) * p < 0x100_0000 * p) by (nonlinear_arith)
            requires
                0 <= fraction < 0x80_0000,
                p > 0,
        ;
    }
}

/// No two finite, non-negative 32-bit floats have the same magnitude: a
/// float is known by its value.
pub proof fn lemma_f32_magnitude_injective(a: u32, b: u32)
    requires
        a < F32_INFINITY,
        b < F32_INFINITY,
        f32_magnitude(a) == f32_magnitude(b),
    ensures
        a == b,
{
    lemma_f32_magnitude_range(a);
    lemma_f32_magnitude_range(b);
    let ea = a / 0x80_0000;
    let eb = b / 0x80_0000;
    if ea < eb {
        lemma_f32_magnitude_order(a, b);
    } else if eb < ea {
        lemma_f32_magnitude_order(b, a);
    } else if ea > 0 {
        let p = pow2((ea - 1) as nat);
        lemma_pow2_pos((ea - 1) as nat);
        let fa = a % 0x80_0000;
        let fb = b % 0x80_0000;
        assert(fa == fb) by (nonlinear_arith)
            requires
                (0x80_0000 + fa) * p == (0x80_0000 + fb) * p,
                p > 0,
        ;
    }
}

/// A float with the smaller exponent has the smaller magnitude.
proof fn lemma_f32_magnitude_order(a: u32, b: u32)
    requires
        a < F32_INFINITY,
        b < F32_INFINITY,
        a / 0x80_0000 < b / 0x80_0000,
    ensures
        f32_magnitude(a) < f32_magnitude(b),
{
    lemma_f32_magnitude_range(a);
    lemma_f32_magnitude_range(b);
    let ea = (a / 0x80_0000) as nat;
    let eb = (b / 0x80_0000) as nat;
    let low = pow2((eb - 1) as nat);
    lemma_pow2_pos((eb - 1) as nat);
    if ea == 0 {
    } else {
        if ea < eb - 1 {
            lemma_pow2_strictly_increases(ea, (eb - 1) as nat);
        }
        let high = pow2(ea);
    }
}

/// The bits of the 32-bit float whose value is the low 23 bits of `x`.
/// Every such number is a 32-bit float exactly; the upper bits of `x` are
/// dropped because only the low 23 are sure to survive the conversion.
pub fn u32_to_f32_nowarn(x: u32) -> (bits: u32)
    ensures
        bits < F32_INFINITY,
        f32_magnitude(bits) == (x & 0x007f_ffff) * pow2(149),
{
    let mantissa: u32 = x & 0x007f_ffff;
    assert(mantissa < 0x80_0000) by (bit_vector)
        requires
            mantissa == x & 0x007f_ffff,
    ;
    if mantissa == 0 {
        return 0;
    }
    let mut significand: u32 = mantissa;
    let mut shift: u32 = 0;
    proof {
        lemma2_to64();
    }
    while significand < 0x80_0000
        invariant
            mantissa >= 1,
            significand == mantissa * pow2(shift as nat),
            pow2(shift as nat) <= significand < 0x100_0000,
            shift <= 23,
        decreases 23 - shift,
    {
        proof {
            lemma_pow2_unfold((shift + 1) as nat);
            lemma_pow2_pos(shift as nat);
            lemma2_to64();
            assert(mantissa * (2 * pow2(shift as nat)) == 2 * (mantissa * pow2(shift as nat)))
                by (nonlinear_arith);
        }
        significand = significand * 2;
        shift = shift + 1;
    }
    let exponent: u32 = 150 - shift;
    let bits: u32 = exponent * 0x80_0000 + (significand - 0x80_0000);
    proof {
        lemma_pow2_adds(shift as nat, (149 - shift) as nat);
        assert(mantissa * pow2(shift as nat) * pow2((149 - shift) as nat) == mantissa * (pow2(
            shift as nat,
        ) * pow2((149 - shift) as nat))) by (nonlinear_arith);
    }
    bits
}

/// Narrows the bits of a 64-bit float to those of the nearest 32-bit
/// float. See [`narrowed`]. For every input but a NaN this is what the
/// processor's own conversion gives; for a NaN, whose conversion may keep
/// part of the payload, it gives the quiet NaN of the same sign.
pub fn f64_to_f32_bits(bits: u64) -> (narrow: u32)
    ensures
        narrow == narrowed(bits),
{
    let sign: u32 = if bits >= 0x8000_0000_0000_0000 {
        F32_SIGN
    } else {
        0
    };
    let e: u64 = (bits / 0x10_0000_0000_0000) % 0x800;
    let f: u64 = bits % 0x10_0000_0000_0000;
    if e == 0x7ff {
        if f == 0 {
            return sign + F32_INFINITY;
        } else {
            return sign + F32_QUIET_NAN;
        }
    }
    if e == 0 {
        return sign;
    }
    let m: u64 = 0x10_0000_0000_0000 + f;
    if e <= 872 {
        proof {
            let step = (926 - e) as nat;
            lemma2_to64_rest();
            if step > 54 {
                lemma_pow2_strictly_increases(54, step);
            }
            let d = pow2(step);
            vstd::arithmetic::div_mod::lemma_small_mod(m as nat, d);
            vstd::arithmetic::div_mod::lemma_basic_div(m as int, d as int);
        }
        return sign;
    }
    let step: u64 = if e > 896 {
        29
    } else {
        926 - e
    };
    proof {
        lemma2_to64();
        lemma2_to64_rest();
        lemma_pow2_pos(step as nat);
        if step < 53 {
            lemma_pow2_strictly_increases(step as nat, 53);
        }
        if step > 29 {
            lemma_pow2_strictly_increases(29, step as nat);
        }
        vstd::bits::lemma_u64_shl_is_mul(1, step);
    }
    let d: u64 = 1u64 << step;
    let q: u64 = m / d;
    let r: u64 = m % d;
    proof {
        vstd::arithmetic::div_mod::lemma_fundamental_div_mod(m as int, d as int);
    }
    let rounded: u64 = if 2 * r < d {
        q
    } else if 2 * r > d {
        q + 1
    } else if q % 2 == 0 {
        q
    } else {
        q + 1
    };
    let base: u64 = if e > 896 {
        (e - 897) * 0x80_0000
    } else {
        0
    };
    let magnitude: u64 = base + rounded;
    if magnitude >= 0x7f80_0000 {
        sign + F32_INFINITY
    } else {
        sign + magnitude as u32
    }
}

} // verus!
