//! The height of a screenshot after scaling, as single-precision arithmetic gives it.
//!
//! The height is computed from the width and the height in IEEE 754 single precision:
//! the scale is a rounded quotient, the scaled height a rounded product. Here both are
//! computed on integers, with the rounding spelled out.

use vstd::prelude::*;

verus! {

/// The widest image that is recognized as it is.
pub const MAX_WIDTH: u32 = 1920;

/// The integer nearest to `n / d`, and the even one of two that are equally near.
pub open spec fn nearest(n: nat, d: nat) -> nat {
    if 2 * (n % d) < d || (2 * (n % d) == d && (n / d) % 2 == 0) {
        n / d
    } else {
        n / d + 1
    }
}

/// How many binary digits `n` has beyond the 24 of a single-precision number.
pub open spec fn excess(n: nat) -> nat
    decreases n,
{
    if n < 0x100_0000 {
        0
    } else {
        1 + excess(n / 2)
    }
}

/// The single-precision number nearest to the integer `n`.
pub open spec fn single(n: nat) -> nat {
    let unit = vstd::arithmetic::power2::pow2(excess(n));
    nearest(n, unit) * unit
}

/// How often `n` is to be doubled until its quotient by `d` has 24 binary digits.
pub open spec fn lack(n: nat, d: nat) -> nat
    decreases
            (if n >= 0x80_0000 * d {
                0
            } else {
                0x80_0000 * d - n
            }),
{
    if n == 0 || n >= 0x80_0000 * d {
        0
    } else {
        1 + lack(2 * n, d)
    }
}

/// The height that an image of this size has when it is scaled to the widest width:
/// with `s` the single-precision number nearest to the quotient of the widths, the
/// single-precision number nearest to `s` times the height, rounded to an integer, and
/// upwards in the middle.
pub open spec fn scaled(width: u32, height: u32) -> nat {
    let from = single(width as nat);
    let e = lack(MAX_WIDTH as nat, from);
    let unit = vstd::arithmetic::power2::pow2(e);
    let scale = nearest(MAX_WIDTH as nat * unit, from);
    let product = single(single(height as nat) * scale);
    (2 * product + unit) / (2 * unit)
}

/// `scaled`, bounded by the greatest integer of 32 bits.
pub open spec fn scaled_height_of(width: u32, height: u32) -> u32 {
    if scaled(width, height) > u32::MAX {
        u32::MAX
    } else {
        scaled(width, height) as u32
    }
}

fn nearest_integer(n: u64, d: u64) -> (r: u64)
    requires
        0 < d,
        n <= 0x1000_0000_0000_0000,
    ensures
        r == nearest(n as nat, d as nat),
        r <= n + 1,
        r * d <= n + d,
{
    let q: u64 = n / d;
    let rest: u64 = n % d;
    proof {
        vstd::arithmetic::div_mod::lemma_fundamental_div_mod(n as int, d as int);
        assert(q <= n) by (nonlinear_arith)
            requires
                q == n as int / d as int,
                0 < d,
        ;
        assert(q * d <= n) by (nonlinear_arith)
            requires
                n as int == d as int * q as int + rest as int,
                0 <= rest,
        ;
        assert((q + 1) * d == q * d + d) by (nonlinear_arith);
    }
    if rest < d - rest || (rest == d - rest && q % 2 == 0) {
        q
    } else {
        q + 1
    }
}

proof fn lemma_halved(n: nat, unit: nat)
    requires
        unit > 0,
    ensures
        (n / unit) / 2 == n / (2 * unit),
{
    vstd::arithmetic::div_mod::lemma_div_denominator(n as int, unit as int, 2);
    assert(unit * 2 == 2 * unit) by (nonlinear_arith);
}

/// The single-precision number nearest to an integer.
fn single_precision(n: u64) -> (r: u64)
    requires
        n <= 0x1000_0000_0000_0000,
    ensures
        r == single(n as nat),
        r <= 2 * n,
        n < 0x100_0000 ==> r == n,
        n >= 0x100_0000 ==> r >= 0x80_0000,
{
    let mut unit: u64 = 1;
    let mut top: u64 = n;
    let ghost mut k: nat = 0;
    proof {
        vstd::arithmetic::power2::lemma2_to64();
    }
    while top >= 0x100_0000
        invariant
            unit == vstd::arithmetic::power2::pow2(k),
            top == n as nat / unit as nat,
            0 < unit,
            excess(n as nat) == k + excess(top as nat),
            top * unit <= n,
            n <= 0x1000_0000_0000_0000,
            k == 0 ==> top == n,
            k > 0 ==> n >= 0x100_0000 && unit <= n && top >= 0x80_0000,
        decreases top,
    {
        proof {
            vstd::arithmetic::power2::lemma_pow2_unfold(k + 1);
            lemma_halved(n as nat, unit as nat);
            assert(unit * 0x100_0000 <= n) by (nonlinear_arith)
                requires
                    top * unit <= n,
                    top >= 0x100_0000,
            ;
            let half = top / 2;
            assert(half * (2 * unit) <= n) by (nonlinear_arith)
                requires
                    half * 2 <= top,
                    top * unit <= n,
                    0 < unit,
            ;
            k = k + 1;
        }
        top = top / 2;
        unit = unit * 2;
    }
    let q: u64 = nearest_integer(n, unit);
    proof {
        assert(excess(n as nat) == k);
        assert(q * unit <= n + unit);
        if k == 0 {
            assert(n % 1 == 0);
            assert(q == n);
            assert(q * unit == q) by (nonlinear_arith)
                requires
                    unit == 1,
            ;
        } else {
            assert(q * unit <= 2 * n);
            assert(q * unit >= 0x80_0000) by (nonlinear_arith)
                requires
                    q >= 0x80_0000,
                    unit > 0,
            ;
        }
    }
    q * unit
}

/// The height that an image of this size has when it is scaled to the widest width.
pub fn scaled_height(width: u32, height: u32) -> (r: u32)
    requires
        width > MAX_WIDTH,
    ensures
        r == scaled_height_of(width, height),
{
    let from: u64 = single_precision(width as u64);
    let mut unit: u64 = 1;
    let mut top: u64 = MAX_WIDTH as u64;
    let ghost mut k: nat = 0;
    proof {
        vstd::arithmetic::power2::lemma2_to64();
    }
    while top < 0x80_0000 * from
        invariant
            unit == vstd::arithmetic::power2::pow2(k),
            top == MAX_WIDTH * unit,
            0 < unit <= top,
            1921 <= from <= 0x2_0000_0000,
            top < 0x100_0000 * from,
            lack(MAX_WIDTH as nat, from as nat) == k + lack(top as nat, from as nat),
        decreases 0x100_0000 * from - top,
    {
        proof {
            vstd::arithmetic::power2::lemma_pow2_unfold(k + 1);
            k = k + 1;
        }
        top = top * 2;
        unit = unit * 2;
    }
    let scale: u64 = nearest_integer(top, from);
    let tall: u64 = single_precision(height as u64);
    proof {
        assert(scale <= 0x100_0000) by (nonlinear_arith)
            requires
                scale * from <= top + from,
                top < 0x100_0000 * from,
                0 < from,
        ;
        assert(tall * scale <= 0x2_0000_0000 * 0x100_0000) by (nonlinear_arith)
            requires
                0 <= tall <= 0x2_0000_0000,
                0 <= scale <= 0x100_0000,
        ;
        assert(MAX_WIDTH as nat * unit as nat == top);
    }
    let product: u64 = single_precision(tall * scale);
    let r: u64 = (2 * product + unit) / (2 * unit);
    if r > u32::MAX as u64 {
        u32::MAX
    } else {
        r as u32
    }
}

// ---------------------------------------------------------------------------
// Bounds
// ---------------------------------------------------------------------------

proof fn lemma_nearest_at_most(n: nat, d: nat, top: nat)
    requires
        0 < d,
        n <= top * d,
    ensures
        nearest(n, d) <= top,
{
    let q = n / d;
    vstd::arithmetic::div_mod::lemma_fundamental_div_mod(n as int, d as int);
    assert(q <= top && (q == top ==> n % d == 0)) by (nonlinear_arith)
        requires
            n == d * q + n % d,
            0 <= n % d < d,
            n <= top * d,
            0 < d,
    ;
}

proof fn lemma_excess_at_most(n: nat, e: nat)
    requires
        n < 0x100_0000 * vstd::arithmetic::power2::pow2(e),
    ensures
        excess(n) <= e,
    decreases e,
{
    if e == 0 {
        vstd::arithmetic::power2::lemma2_to64();
    } else {
        vstd::arithmetic::power2::lemma_pow2_unfold(e);
        if n >= 0x100_0000 {
            lemma_excess_at_most(n / 2, (e - 1) as nat);
        }
    }
}

/// A single-precision bound is not exceeded by rounding to single precision.
proof fn lemma_single_at_most(n: nat, h: nat, e: nat)
    requires
        h < 0x100_0000,
        n <= h * vstd::arithmetic::power2::pow2(e),
    ensures
        single(n) <= h * vstd::arithmetic::power2::pow2(e),
{
    let whole = vstd::arithmetic::power2::pow2(e);
    vstd::arithmetic::power2::lemma_pow2_pos(e);
    assert(n < 0x100_0000 * whole) by (nonlinear_arith)
        requires
            n <= h * whole,
            h < 0x100_0000,
            0 < whole,
    ;
    lemma_excess_at_most(n, e);
    let k = excess(n);
    let unit = vstd::arithmetic::power2::pow2(k);
    let rest = vstd::arithmetic::power2::pow2((e - k) as nat);
    vstd::arithmetic::power2::lemma_pow2_pos(k);
    vstd::arithmetic::power2::lemma_pow2_adds(k, (e - k) as nat);
    assert((h * rest) * unit == h * whole) by (nonlinear_arith)
        requires
            unit * rest == whole,
    ;
    lemma_nearest_at_most(n, unit, h * rest);
    assert(nearest(n, unit) * unit <= (h * rest) * unit) by (nonlinear_arith)
        requires
            nearest(n, unit) <= h * rest,
            0 < unit,
    ;
}

proof fn lemma_single_exact(n: nat)
    requires
        n < 0x100_0000,
    ensures
        single(n) == n,
{
    vstd::arithmetic::power2::lemma2_to64();
    let unit = vstd::arithmetic::power2::pow2(excess(n));
    assert(excess(n) == 0);
    assert(unit == 1);
    assert(nearest(n, 1) == n);
    assert(nearest(n, unit) * unit == n) by (nonlinear_arith)
        requires
            nearest(n, unit) == n,
            unit == 1,
    ;
}

/// The leading digits of an integer that has more than 24 of them.
proof fn lemma_leading_digits(n: nat)
    requires
        n >= 0x100_0000,
    ensures
        n / vstd::arithmetic::power2::pow2(excess(n)) >= 0x80_0000,
    decreases n,
{
    let k = excess(n / 2);
    vstd::arithmetic::power2::lemma2_to64();
    vstd::arithmetic::power2::lemma_pow2_unfold(k + 1);
    vstd::arithmetic::power2::lemma_pow2_pos(k);
    let unit = vstd::arithmetic::power2::pow2(k);
    assert(excess(n) == k + 1);
    vstd::arithmetic::div_mod::lemma_div_denominator(n as int, 2, unit as int);
    assert((n / 2) / unit == n / (2 * unit));
    if n / 2 >= 0x100_0000 {
        lemma_leading_digits(n / 2);
    } else {
        assert(unit == 1);
    }
}

proof fn lemma_single_beyond_max_width(n: nat)
    requires
        n > MAX_WIDTH,
    ensures
        single(n) > MAX_WIDTH,
{
    if n < 0x100_0000 {
        lemma_single_exact(n);
    } else {
        let unit = vstd::arithmetic::power2::pow2(excess(n));
        vstd::arithmetic::power2::lemma_pow2_pos(excess(n));
        lemma_leading_digits(n);
        assert(nearest(n, unit) * unit >= 0x80_0000) by (nonlinear_arith)
            requires
                nearest(n, unit) >= 0x80_0000,
                unit > 0,
        ;
    }
}

/// An image whose height is exact in single precision does not become taller when it is
/// scaled down.
pub proof fn lemma_scaled_not_taller(width: u32, height: u32)
    requires
        MAX_WIDTH < width,
        height < 0x100_0000,
    ensures
        scaled_height_of(width, height) <= height,
{
    let h = height as nat;
    let from = single(width as nat);
    lemma_single_beyond_max_width(width as nat);
    lemma_single_exact(h);
    let e = lack(MAX_WIDTH as nat, from);
    let unit = vstd::arithmetic::power2::pow2(e);
    vstd::arithmetic::power2::lemma_pow2_pos(e);
    let scale = nearest(MAX_WIDTH as nat * unit, from);
    assert(MAX_WIDTH as nat * unit <= unit * from) by (nonlinear_arith)
        requires
            MAX_WIDTH < from,
            0 < unit,
    ;
    lemma_nearest_at_most(MAX_WIDTH as nat * unit, from, unit);
    assert(h * scale <= h * unit) by (nonlinear_arith)
        requires
            scale <= unit,
    ;
    lemma_single_at_most(h * scale, h, e);
    let product = single(h * scale);
    assert((2 * product + unit) / (2 * unit) <= h) by (nonlinear_arith)
        requires
            product <= h * unit,
            0 < unit,
    ;
}

// ---------------------------------------------------------------------------
// Laws
// ---------------------------------------------------------------------------

/// Rounding goes to the nearest integer: no other is nearer, and of two that are equally
/// near the even one is taken.
pub proof fn law_nearest_is_near(n: nat, d: nat)
    requires
        0 < d,
    ensures
        -d <= 2 * (n - nearest(n, d) * d) <= d,
        2 * (n - nearest(n, d) * d) == d || 2 * (n - nearest(n, d) * d) == -d ==> nearest(n, d) % 2
            == 0,
{
    let q = n / d;
    let r = nearest(n, d);
    vstd::arithmetic::div_mod::lemma_fundamental_div_mod(n as int, d as int);
    assert(d * q == q * d && (q + 1) * d == q * d + d) by (nonlinear_arith);
    if r == q {
        assert(n - r * d == n % d);
    } else {
        assert(n - r * d == n % d - d);
    }
}

proof fn lemma_fits_in_excess(n: nat)
    ensures
        n < 0x100_0000 * vstd::arithmetic::power2::pow2(excess(n)),
    decreases n,
{
    vstd::arithmetic::power2::lemma2_to64();
    if n >= 0x100_0000 {
        lemma_fits_in_excess(n / 2);
        vstd::arithmetic::power2::lemma_pow2_unfold(excess(n));
    }
}

/// Rounding to single precision keeps integers below 2^24 as they are. Of a greater one it
/// keeps 24 binary digits: the error is at most half a unit in the last of them.
pub proof fn law_single_keeps_24_digits(n: nat)
    ensures
        n < 0x100_0000 ==> single(n) == n,
        n >= 0x100_0000 ==> exists|k: nat|
            {
                let unit = #[trigger] vstd::arithmetic::power2::pow2(k);
                &&& 0x80_0000 * unit <= n < 0x100_0000 * unit
                &&& single(n) % unit == 0
                &&& -unit <= 2 * (n - single(n)) <= unit
            },
{
    if n < 0x100_0000 {
        lemma_single_exact(n);
    } else {
        let k = excess(n);
        let unit = vstd::arithmetic::power2::pow2(k);
        vstd::arithmetic::power2::lemma_pow2_pos(k);
        lemma_leading_digits(n);
        lemma_fits_in_excess(n);
        law_nearest_is_near(n, unit);
        assert(0x80_0000 * unit <= n) by (nonlinear_arith)
            requires
                n / unit >= 0x80_0000,
                0 < unit,
        ;
        vstd::arithmetic::div_mod::lemma_mod_multiples_basic(
            nearest(n, unit) as int,
            unit as int,
        );
    }
}

proof fn lemma_lack(n: nat, d: nat)
    requires
        0 < n,
        0 < d,
    ensures
        n * vstd::arithmetic::power2::pow2(lack(n, d)) >= 0x80_0000 * d,
    decreases
            (if n >= 0x80_0000 * d {
                0
            } else {
                0x80_0000 * d - n
            }),
{
    vstd::arithmetic::power2::lemma2_to64();
    if n >= 0x80_0000 * d {
        assert(lack(n, d) == 0);
        assert(n * 1 == n);
    } else {
        lemma_lack(2 * n, d);
        let k = lack(2 * n, d);
        vstd::arithmetic::power2::lemma_pow2_unfold(k + 1);
        let half = vstd::arithmetic::power2::pow2(k);
        assert(n * (2 * half) == (2 * n) * half) by (nonlinear_arith);
    }
}

proof fn lemma_single_error(n: nat)
    ensures
        -n <= 0x100_0000 * (n - single(n)) <= n,
{
    law_single_keeps_24_digits(n);
}

/// Scaling keeps the proportions: the scaled height is at most three quarters of a pixel
/// off the height times 1920 by the width.
pub proof fn law_scaling_keeps_the_proportions(width: u32, height: u32)
    requires
        1920 < width < 0x100_0000,
        height <= 0x20_0000,
    ensures
        -3 * width <= 4 * (scaled_height_of(width, height) * width - 1920 * height) <= 3 * width,
{
    let w = width as int;
    let h = height as int;
    lemma_single_exact(width as nat);
    lemma_single_exact(height as nat);
    lemma_scaled_not_taller(width, height);
    let e = lack(1920, width as nat);
    let unit = vstd::arithmetic::power2::pow2(e);
    vstd::arithmetic::power2::lemma_pow2_pos(e);
    lemma_lack(1920, width as nat);
    let top = 1920 * unit;
    let s = nearest(top, width as nat);
    law_nearest_is_near(top, width as nat);
    assert(top <= unit * w) by (nonlinear_arith)
        requires
            top == 1920 * unit,
            1920 < w,
            0 < unit,
    ;
    lemma_nearest_at_most(top, width as nat, unit);
    let x = (height as nat) * s;
    assert(x <= h * unit) by (nonlinear_arith)
        requires
            x == h * s,
            s <= unit,
            0 <= h,
    ;
    assert(h * unit <= 0x20_0000 * unit) by (nonlinear_arith)
        requires
            h <= 0x20_0000,
            0 < unit,
    ;
    lemma_single_error(x);
    let p = single(x);
    assert(-unit <= 8 * (x - p) <= unit);
    let r = (2 * p + unit) / (2 * unit);
    vstd::arithmetic::div_mod::lemma_fundamental_div_mod((2 * p + unit) as int, (2 * unit) as int);
    vstd::arithmetic::div_mod::lemma_mod_bound((2 * p + unit) as int, (2 * unit) as int);
    assert((2 * unit) * r == 2 * (r * unit)) by (nonlinear_arith);
    assert(-unit <= 2 * (p - r * unit) < unit);
    assert(4 * h <= unit);
    lemma_sum_of_errors(w, h, unit as int, s as int, x as int, p as int, r as int);
}

proof fn lemma_sum_of_errors(w: int, h: int, unit: int, s: int, x: int, p: int, r: int)
    requires
        0 < w,
        0 <= h,
        0 < unit,
        x == h * s,
        -w <= 2 * (1920 * unit - s * w) <= w,
        -unit <= 8 * (x - p) <= unit,
        -unit <= 2 * (p - r * unit) < unit,
        4 * h <= unit,
    ensures
        -3 * w <= 4 * (r * w - 1920 * h) <= 3 * w,
{
    let a = r * unit - p;
    let b = p - x;
    let c = s * w - 1920 * unit;
    let d = r * w - 1920 * h;
    assert(unit * d == w * a + w * b + h * c) by (nonlinear_arith)
        requires
            d == r * w - 1920 * h,
            x == h * s,
            a == r * unit - p,
            b == p - x,
            c == s * w - 1920 * unit,
    ;
    assert(-(w * unit) <= 2 * (w * a) <= w * unit) by (nonlinear_arith)
        requires
            -unit <= 2 * a <= unit,
            0 < w,
    ;
    assert(-(w * unit) <= 8 * (w * b) <= w * unit) by (nonlinear_arith)
        requires
            -unit <= 8 * b <= unit,
            0 < w,
    ;
    assert(-(h * w) <= 2 * (h * c) <= h * w) by (nonlinear_arith)
        requires
            -w <= 2 * c <= w,
            0 <= h,
    ;
    assert(4 * (h * w) <= w * unit) by (nonlinear_arith)
        requires
            4 * h <= unit,
            0 < w,
    ;
    let (wu, wa, wb, hc, hw, ud) = (w * unit, w * a, w * b, h * c, h * w, unit * d);
    assert(ud == wa + wb + hc);
    assert(-3 * wu <= 4 * ud <= 3 * wu);
    assert(-3 * w <= 4 * d <= 3 * w) by (nonlinear_arith)
        requires
            -3 * wu <= 4 * ud <= 3 * wu,
            wu == w * unit,
            ud == unit * d,
            0 < unit,
    ;
}

} // verus!
