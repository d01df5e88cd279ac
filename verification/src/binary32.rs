//! Rounding to IEEE 754 binary32 (`f32`), stated over the integers.
//!
//! Picture dimensions and their quotients are compared in single precision. Every
//! value that takes part is zero, or positive and far from the limits of the exponent.
//! So a positive binary32 number is here a 24-bit significand times a power of two, and
//! rounding is to the nearest such number with ties to the even significand.
use vstd::arithmetic::div_mod::{
    lemma_div_denominator, lemma_fundamental_div_mod, lemma_fundamental_div_mod_converse,
};
use vstd::arithmetic::power2::{lemma2_to64, lemma_pow2_adds, lemma_pow2_pos, lemma_pow2_unfold, pow2};
use vstd::prelude::*;

verus! {

/// `num / den` rounded to the nearest integer, a tie going to the even neighbour.
pub open spec fn nearest_even(num: int, den: int) -> int {
    let quotient = num / den;
    let remainder = num % den;
    if 2 * remainder < den || (2 * remainder == den && quotient % 2 == 0) {
        quotient
    } else {
        quotient + 1
    }
}

/// The distance between neighbouring binary32 numbers around the integer `n`, where
/// that distance is at least one: integers below 2^24 are all binary32 numbers.
pub open spec fn spacing(n: nat) -> nat
    decreases n,
{
    if n < 0x100_0000 {
        1
    } else {
        2 * spacing(n / 2)
    }
}

/// The integer `n` converted to binary32.
pub open spec fn binary32_of(n: nat) -> int {
    nearest_even(n as int, spacing(n) as int) * spacing(n)
}

/// `2^k` for a non-negative `k`, and one for a negative `k`.
pub open spec fn shift(k: int) -> nat {
    if k >= 0 {
        pow2(k as nat)
    } else {
        1
    }
}

/// Scaling `num / den` by `2^k` brings it into `[2^23, 2^24)`, where the integers are
/// the 24-bit significands.
pub open spec fn in_binade(num: int, den: int, k: int) -> bool {
    0x80_0000 * (den * shift(-k)) <= num * shift(k) < 0x100_0000 * (den * shift(-k))
}

/// The significand of `num / den` in binary32, for the `k` of its binade: the rounded
/// quotient is `quotient_significand(num, den, k) / 2^k`.
pub open spec fn quotient_significand(num: int, den: int, k: int) -> int {
    nearest_even(num * shift(k), den * shift(-k))
}

/// `m / 2^k < t / 2^j`.
pub open spec fn scaled_less(m: int, k: int, t: int, j: int) -> bool {
    m * shift(j - k) < t * shift(k - j)
}

/// The binary32 quotient `num / den` is less than `t / 2^j`.
pub open spec fn quotient_below(num: int, den: int, t: int, j: int) -> bool {
    num == 0 || exists|k: int| #[trigger]
        in_binade(num, den, k) && scaled_less(quotient_significand(num, den, k), k, t, j)
}

/// The binary32 quotient `num / den` is greater than `t / 2^j`.
pub open spec fn quotient_above(num: int, den: int, t: int, j: int) -> bool {
    num != 0 && exists|k: int| #[trigger]
        in_binade(num, den, k) && scaled_less(t, j, quotient_significand(num, den, k), k)
}

/// `num / den` lies below the midpoint of `t / 2^j` and its lower neighbour, or on it
/// when a tie goes to that neighbour.
pub open spec fn midpoint_below(num: int, den: int, t: int, j: int) -> bool {
    let scaled = num * pow2((j + 1) as nat);
    scaled < (2 * t - 1) * den || (scaled == (2 * t - 1) * den && t % 2 == 1)
}

proof fn lemma_shift_positive(k: int)
    ensures
        shift(k) > 0,
{
    if k >= 0 {
        lemma_pow2_pos(k as nat);
    }
}

/// Where the nearest integer to `num / den` falls below `t`, read off the midpoint
/// between `t - 1` and `t`.
proof fn lemma_nearest_even_below(num: int, den: int, t: int)
    requires
        den > 0,
    ensures
        nearest_even(num, den) < t <==> (2 * num < (2 * t - 1) * den || (2 * num == (2 * t - 1)
            * den && t % 2 == 1)),
{
    let q = num / den;
    let r = num % den;
    lemma_fundamental_div_mod(num, den);
    assert(num == den * q + r && 0 <= r < den);
    let d = t - q;
    assert((2 * t - 1) * den == 2 * (den * q) + (2 * d - 1) * den) by (nonlinear_arith)
        requires
            d == t - q,
    ;
    if d <= 0 {
        assert((2 * d - 1) * den <= -den) by (nonlinear_arith)
            requires
                d <= 0,
                den > 0,
        ;
    } else if d == 1 {
        assert((2 * d - 1) * den == den) by (nonlinear_arith)
            requires
                d == 1,
        ;
    } else {
        assert((2 * d - 1) * den >= 3 * den) by (nonlinear_arith)
            requires
                d >= 2,
                den > 0,
        ;
    }
}

/// A quotient in the binade of `k` compares with `t / 2^j` as its exact value compares
/// with the midpoint below `t / 2^j`.
proof fn lemma_binade_below(num: int, den: int, k: int, t: int, j: int)
    requires
        num > 0,
        den > 0,
        j >= 0,
        0x80_0000 < t < 0x100_0000,
        in_binade(num, den, k),
    ensures
        scaled_less(quotient_significand(num, den, k), k, t, j) <==> midpoint_below(num, den, t, j),
{
    lemma2_to64();
    let up = shift(k) as int;
    let down = shift(-k) as int;
    let a = num * up;
    let b = den * down;
    let m = nearest_even(a, b);
    lemma_shift_positive(k);
    lemma_shift_positive(-k);
    assert(a > 0 && b > 0) by (nonlinear_arith)
        requires
            num > 0,
            den > 0,
            up > 0,
            down > 0,
            a == num * up,
            b == den * down,
    ;
    if k >= 0 {
        assert(b == den) by (nonlinear_arith)
            requires
                down == 1,
                b == den * down,
        ;
    } else {
        assert(a == num) by (nonlinear_arith)
            requires
                up == 1,
                a == num * up,
        ;
    }
    lemma_nearest_even_below(a, b, t);
    // The significand stays between 2^23 and 2^24.
    lemma_nearest_even_below(a, b, 0x80_0000);
    lemma_nearest_even_below(a, b, 0x100_0001);
    assert((2 * 0x80_0000 - 1) * b == 0xff_ffff * b && (2 * 0x100_0001 - 1) * b == 0x200_0001 * b);
    assert(0x80_0000 <= m <= 0x100_0000);
    let p = pow2((j + 1) as nat) as int;
    lemma_pow2_unfold((j + 1) as nat);
    assert(p == 2 * pow2(j as nat));
    if k == j {
        assert(down == 1 && b == den);
        assert(num * p == 2 * a) by (nonlinear_arith)
            requires
                p == 2 * up,
                a == num * up,
        ;
        assert(m * 1 == m && t * 1 == t);
    } else if k > j {
        let e = (k - j) as nat;
        lemma_pow2_adds(j as nat, e);
        lemma_pow2_pos(j as nat);
        lemma_pow2_unfold(e);
        lemma_pow2_pos((e - 1) as nat);
        let f = pow2(e) as int;
        let g = pow2(j as nat) as int;
        assert(f >= 2);
        assert(down == 1 && b == den && up == g * f);
        assert(num * p < 0x100_0000 * den) by (nonlinear_arith)
            requires
                num > 0,
                f >= 2,
                p == 2 * g,
                g > 0,
                num * (g * f) < 0x100_0000 * den,
        ;
        assert(num * p < (2 * t - 1) * den) by (nonlinear_arith)
            requires
                num * p < 0x100_0000 * den,
                t > 0x80_0000,
                den > 0,
        ;
        assert(m * 1 < t * f) by (nonlinear_arith)
            requires
                m <= 0x100_0000,
                t > 0x80_0000,
                f >= 2,
        ;
    } else {
        let e = (j - k) as nat;
        let f = pow2(e) as int;
        let g = pow2(j as nat) as int;
        lemma_pow2_unfold(e);
        lemma_pow2_pos((e - 1) as nat);
        assert(f >= 2);
        // Scaling by 2^j is scaling by 2^k and then by 2^(j - k).
        if k >= 0 {
            lemma_pow2_adds(k as nat, e);
            assert(num * g * down == a * f) by (nonlinear_arith)
                requires
                    down == 1,
                    g == up * f,
                    a == num * up,
            ;
        } else {
            lemma_pow2_adds((-k) as nat, j as nat);
            assert(num * g * down == a * f) by (nonlinear_arith)
                requires
                    f == down * g,
                    a == num,
            ;
        }
        assert(num * g >= 0x100_0000 * den) by (nonlinear_arith)
            requires
                a >= 0x80_0000 * b,
                f >= 2,
                b == den * down,
                down > 0,
                den > 0,
                num * g * down == a * f,
                a > 0,
        ;
        assert(num * p > (2 * t - 1) * den) by (nonlinear_arith)
            requires
                num * g >= 0x100_0000 * den,
                p == 2 * g,
                t < 0x100_0000,
                den > 0,
        ;
        assert(m * f >= t * 1) by (nonlinear_arith)
            requires
                m >= 0x80_0000,
                t < 0x100_0000,
                f >= 2,
        ;
    }
}

/// Within its binade a quotient exceeds `t / 2^j` exactly when it is not below the
/// binary32 number that follows `t / 2^j`.
proof fn lemma_binade_above(num: int, den: int, k: int, t: int, j: int)
    requires
        num > 0,
        den > 0,
        j >= 0,
        0x80_0000 < t < 0xff_ffff,
        in_binade(num, den, k),
    ensures
        scaled_less(t, j, quotient_significand(num, den, k), k) <==> !midpoint_below(
            num,
            den,
            t + 1,
            j,
        ),
{
    lemma_binade_below(num, den, k, t + 1, j);
    let a = num * shift(k);
    let b = den * shift(-k);
    let m = nearest_even(a, b);
    lemma_shift_positive(-k);
    assert(b > 0) by (nonlinear_arith)
        requires
            den > 0,
            shift(-k) > 0,
            b == den * shift(-k),
    ;
    lemma_nearest_even_below(a, b, 0x80_0000);
    lemma_nearest_even_below(a, b, 0x100_0001);
    assert((2 * 0x80_0000 - 1) * b == 0xff_ffff * b && (2 * 0x100_0001 - 1) * b == 0x200_0001 * b);
    assert(0x80_0000 <= m <= 0x100_0000);
    lemma2_to64();
    if k == j {
        assert(t * 1 < m * 1 <==> !(m * 1 < (t + 1) * 1));
    } else if k > j {
        let f = shift(k - j) as int;
        lemma_pow2_unfold((k - j) as nat);
        lemma_pow2_pos((k - j - 1) as nat);
        assert(m * 1 < t * f && m * 1 < (t + 1) * f) by (nonlinear_arith)
            requires
                m <= 0x100_0000,
                t > 0x80_0000,
                f >= 2,
        ;
    } else {
        let f = shift(j - k) as int;
        lemma_pow2_unfold((j - k) as nat);
        lemma_pow2_pos((j - k - 1) as nat);
        assert(t * 1 < m * f && (t + 1) * 1 <= m * f) by (nonlinear_arith)
            requires
                m >= 0x80_0000,
                t < 0xff_ffff,
                f >= 2,
        ;
    }
}

proof fn lemma_binade_exists_up(num: int, den: int, k: nat)
    requires
        num > 0,
        den > 0,
        num * pow2(k) < 0x80_0000 * den,
    ensures
        exists|k: int| in_binade(num, den, k),
    decreases 0x80_0000 * den - num * pow2(k),
{
    lemma_pow2_unfold(k + 1);
    lemma_pow2_pos(k);
    assert(num * pow2(k + 1) == 2 * (num * pow2(k)) && num * pow2(k) > 0) by (nonlinear_arith)
        requires
            pow2(k + 1) == 2 * pow2(k),
            pow2(k) > 0,
            num > 0,
    ;
    if num * pow2(k + 1) < 0x80_0000 * den {
        lemma_binade_exists_up(num, den, k + 1);
    } else {
        assert(den * 1 == den);
        assert(in_binade(num, den, k as int + 1));
    }
}

proof fn lemma_binade_exists_down(num: int, den: int, k: nat)
    requires
        num > 0,
        den > 0,
        num >= 0x100_0000 * (den * pow2(k)),
    ensures
        exists|k: int| in_binade(num, den, k),
    decreases num - 0x100_0000 * (den * pow2(k)),
{
    lemma_pow2_unfold(k + 1);
    lemma_pow2_pos(k);
    assert(den * pow2(k + 1) == 2 * (den * pow2(k)) && den * pow2(k) > 0) by (nonlinear_arith)
        requires
            pow2(k + 1) == 2 * pow2(k),
            pow2(k) > 0,
            den > 0,
    ;
    if num >= 0x100_0000 * (den * pow2(k + 1)) {
        lemma_binade_exists_down(num, den, k + 1);
    } else {
        assert(num * 1 == num);
        assert(in_binade(num, den, -(k as int) - 1));
    }
}

/// Every positive quotient lies in some binade.
pub proof fn lemma_binade_exists(num: int, den: int)
    requires
        num > 0,
        den > 0,
    ensures
        exists|k: int| in_binade(num, den, k),
{
    lemma2_to64();
    assert(num * pow2(0) == num && den * pow2(0) == den);
    if num < 0x80_0000 * den {
        lemma_binade_exists_up(num, den, 0);
    } else if num >= 0x100_0000 * den {
        lemma_binade_exists_down(num, den, 0);
    } else {
        assert(in_binade(num, den, 0));
    }
}

/// Whether a binary32 quotient is below a binary32 number can be read off its exact
/// value and one midpoint.
pub proof fn lemma_quotient_below(num: int, den: int, t: int, j: int)
    requires
        num >= 0,
        den > 0,
        j >= 0,
        0x80_0000 < t < 0x100_0000,
    ensures
        quotient_below(num, den, t, j) <==> midpoint_below(num, den, t, j),
{
    if num == 0 {
        assert(0 * pow2((j + 1) as nat) == 0);
        assert((2 * t - 1) * den > 0) by (nonlinear_arith)
            requires
                t > 0,
                den > 0,
        ;
    } else {
        lemma_binade_exists(num, den);
        assert forall|k: int| #[trigger] in_binade(num, den, k) implies (scaled_less(
            quotient_significand(num, den, k),
            k,
            t,
            j,
        ) <==> midpoint_below(num, den, t, j)) by {
            lemma_binade_below(num, den, k, t, j);
        }
    }
}

/// Whether a binary32 quotient is above a binary32 number can be read off its exact
/// value and one midpoint.
pub proof fn lemma_quotient_above(num: int, den: int, t: int, j: int)
    requires
        num >= 0,
        den > 0,
        j >= 0,
        0x80_0000 < t < 0xff_ffff,
    ensures
        quotient_above(num, den, t, j) <==> !midpoint_below(num, den, t + 1, j),
{
    if num == 0 {
        lemma_quotient_below(num, den, t + 1, j);
    } else {
        lemma_binade_exists(num, den);
        assert forall|k: int| #[trigger] in_binade(num, den, k) implies (scaled_less(
            t,
            j,
            quotient_significand(num, den, k),
            k,
        ) <==> !midpoint_below(num, den, t + 1, j)) by {
            lemma_binade_above(num, den, k, t, j);
        }
    }
}

/// A binary32 quotient is not both below and above a binary32 number.
pub proof fn lemma_below_excludes_above(num: int, den: int, t: int, j: int)
    requires
        num >= 0,
        den > 0,
        j >= 0,
        0x80_0000 < t < 0xff_ffff,
    ensures
        !(quotient_below(num, den, t, j) && quotient_above(num, den, t, j)),
{
    lemma_quotient_below(num, den, t, j);
    lemma_quotient_above(num, den, t, j);
    assert((2 * t - 1) * den < (2 * (t + 1) - 1) * den) by (nonlinear_arith)
        requires
            den > 0,
    ;
}

/// Integers below 2^24 convert to themselves.
pub proof fn lemma_binary32_small(n: nat)
    requires
        n < 0x100_0000,
    ensures
        binary32_of(n) == n,
{
    assert(spacing(n) == 1 && n as int / 1 == n && n as int % 1 == 0);
    assert(binary32_of(n) == n * 1) by {
        assert(nearest_even(n as int, 1) == n);
    }
}

/// Conversion commutes with doubling.
pub proof fn lemma_binary32_double(n: nat)
    ensures
        binary32_of(2 * n) == 2 * binary32_of(n),
{
    let s = spacing(n) as int;
    lemma_spacing_bounds(n);
    if 2 * n < 0x100_0000 {
        lemma_binary32_small(n);
        lemma_binary32_small(2 * n);
    } else {
        assert((2 * n) / 2 == n);
        assert(spacing(2 * n) == 2 * s);
        let q = n as int / s;
        let r = n as int % s;
        lemma_fundamental_div_mod(n as int, s);
        assert(2 * n == q * (2 * s) + 2 * r) by (nonlinear_arith)
            requires
                n == s * q + r,
        ;
        lemma_fundamental_div_mod_converse(2 * n as int, 2 * s, q, 2 * r);
        let m = nearest_even(n as int, s);
        assert(nearest_even(2 * n as int, 2 * s) == m);
        assert(m * (2 * s) == 2 * (m * s)) by (nonlinear_arith);
    }
}

/// From 2^24 on, an integer counts between 2^23 and 2^24 steps of its own spacing.
proof fn lemma_spacing_bounds(n: nat)
    ensures
        spacing(n) >= 1,
        n < 0x100_0000 * spacing(n),
        n >= 0x100_0000 ==> 0x80_0000 * spacing(n) <= n,
    decreases n,
{
    if n >= 0x100_0000 {
        lemma_spacing_bounds(n / 2);
    }
}

proof fn lemma_spacing_doubles(a: nat, b: nat)
    requires
        a <= b,
    ensures
        spacing(a) == spacing(b) || 2 * spacing(a) <= spacing(b),
    decreases b,
{
    if a >= 0x100_0000 {
        lemma_spacing_doubles(a / 2, b / 2);
    } else if b >= 0x100_0000 {
        lemma_spacing_bounds(b / 2);
    }
}

/// Conversion keeps the order.
pub proof fn lemma_binary32_monotone(a: nat, b: nat)
    requires
        a <= b,
    ensures
        binary32_of(a) <= binary32_of(b),
{
    let s = spacing(a) as int;
    let t = spacing(b) as int;
    let ma = nearest_even(a as int, s);
    let mb = nearest_even(b as int, t);
    lemma_spacing_bounds(a);
    lemma_spacing_bounds(b);
    lemma_spacing_doubles(a, b);
    if s == t {
        // The significand of `b` is not below that of `a`.
        lemma_nearest_even_below(a as int, s, ma);
        lemma_nearest_even_below(b as int, s, ma);
        assert(ma * s <= mb * s) by (nonlinear_arith)
            requires
                ma <= mb,
                s >= 1,
        ;
    } else {
        lemma_nearest_even_below(a as int, s, 0x100_0001);
        assert((2 * 0x100_0001 - 1) * s == 0x200_0001 * s);
        assert(b >= 0x100_0000);
        lemma_nearest_even_below(b as int, t, 0x80_0000);
        assert((2 * 0x80_0000 - 1) * t == 0xff_ffff * t);
        assert(ma * s <= mb * t) by (nonlinear_arith)
            requires
                ma <= 0x100_0000,
                mb >= 0x80_0000,
                2 * s <= t,
                s >= 1,
        ;
    }
}

/// The integer `n` converted to binary32: `n` itself below 2^24, and otherwise `n`
/// rounded to 24 significant bits.
pub fn to_binary32(n: u64) -> (r: u128)
    ensures
        r == binary32_of(n as nat),
        r <= 2 * n,
{
    let mut unit: u64 = 1;
    let mut top: u64 = n;
    while top >= 0x100_0000
        invariant
            unit >= 1,
            top == n / unit,
            unit == 1 || unit <= n,
            unit * top <= n,
            spacing(n as nat) == unit * spacing(top as nat),
        decreases top,
    {
        proof {
            lemma_div_denominator(n as int, unit as int, 2);
            lemma_fundamental_div_mod(top as int, 2);
            assert(2 * unit * (top / 2) <= n && unit * 2 <= n) by (nonlinear_arith)
                requires
                    unit * top <= n,
                    top >= 2,
                    unit >= 1,
                    2 * (top / 2) <= top,
            ;
            let s = spacing((top / 2) as nat);
            assert(unit * (2 * s) == (unit * 2) * s) by (nonlinear_arith);
        }
        unit = unit * 2;
        top = top / 2;
    }
    proof {
        lemma_fundamental_div_mod(n as int, unit as int);
        assert(unit * 1 == unit);
    }
    let rest: u64 = n % unit;
    let step: u128 = unit as u128;
    let round_down: bool = 2 * (rest as u128) < step || (2 * (rest as u128) == step && top % 2
        == 0);
    let significand: u128 = if round_down {
        top as u128
    } else {
        top as u128 + 1
    };
    proof {
        assert(top * step == unit * top && (top + 1) * step == unit * top + unit) by (nonlinear_arith)
            requires
                step == unit,
        ;
        assert(unit == 1 ==> rest == 0);
    }
    significand * step
}

/// What conversion gives: the number itself below 2^24, and otherwise the nearest multiple of
/// the power of two that leaves 24 significant bits, a tie going to the even multiple.
pub proof fn lemma_binary32_nearest(n: nat) -> (e: nat)
    ensures
        n < 0x100_0000 ==> binary32_of(n) == n,
        n >= 0x100_0000 ==> {
            let unit = pow2(e) as int;
            let multiple = binary32_of(n) / unit;
            &&& 0x80_0000 * unit <= n < 0x100_0000 * unit
            &&& binary32_of(n) == multiple * unit
            &&& -unit <= 2 * (binary32_of(n) - n) <= unit
            &&& 2 * (binary32_of(n) - n) == unit || 2 * (n - binary32_of(n)) == unit ==> multiple
                % 2 == 0
        },
{
    if n < 0x100_0000 {
        lemma_binary32_small(n);
        0
    } else {
        let e = lemma_spacing_power(n);
        let unit = spacing(n) as int;
        lemma_spacing_bounds(n);
        let q = n as int / unit;
        let r = n as int % unit;
        lemma_fundamental_div_mod(n as int, unit);
        let m = nearest_even(n as int, unit);
        assert(n == q * unit + r) by (nonlinear_arith)
            requires
                n == unit * q + r,
        ;
        assert(m * unit - n == (if m == q { -r } else { unit - r })) by (nonlinear_arith)
            requires
                n == q * unit + r,
                m == q || m == q + 1,
        ;
        lemma_fundamental_div_mod_converse(m * unit, unit, m, 0);
        e
    }
}

proof fn lemma_spacing_power(n: nat) -> (e: nat)
    ensures
        spacing(n) == pow2(e),
    decreases n,
{
    lemma2_to64();
    if n < 0x100_0000 {
        0
    } else {
        let e = lemma_spacing_power(n / 2);
        lemma_pow2_unfold(e + 1);
        e + 1
    }
}

/// `to_binary32` converts as `binary32_of` says, and to the number itself below 2^24.
pub proof fn lemma_to_binary32_gives(n: u64, r: u128)
    requires
        call_ensures(to_binary32, (n,), r),
    ensures
        r == binary32_of(n as nat),
        n < 0x100_0000 ==> r == n,
{
    if n < 0x100_0000 {
        lemma_binary32_small(n as nat);
    }
}

} // verus!
