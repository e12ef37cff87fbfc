//! Quotients and products as doubles have them, in whole numbers. A double
//! between two powers of two is one of 2^52 multiples of a power of two; a
//! result that is none of them becomes the nearest, a tie the even one.

use vstd::prelude::*;

use crate::text::double_of;

verus! {

use crate::text::{as_double, double_gap, nearest_even};
use vstd::arithmetic::power2::pow2;

/// `x` and `p` doubled until `x` is at least 2^52 times `b`.
pub open spec fn stretched(x: nat, b: nat, p: nat) -> (nat, nat)
    decreases (if x < 0x10_0000_0000_0000 * b { 0x10_0000_0000_0000 * b - x } else { 0 }),
{
    if x == 0 || x >= 0x10_0000_0000_0000 * b {
        (x, p)
    } else {
        stretched(2 * x, b, 2 * p)
    }
}

/// The double nearest to `a / b`, for doubles with `0 < a <= b`: a whole number
/// of 53 bits, and the power of two that it is divided by.
pub open spec fn double_quotient(a: nat, b: nat) -> (nat, nat) {
    let (x, p) = stretched(a, b, 1);
    (nearest_even(x, b), p)
}

/// `g` doubled until `t` is below 2^53 times it: the gap between two
/// neighbouring doubles at `t`.
pub open spec fn gap_from(t: nat, g: nat) -> nat
    decreases t - g,
{
    if g == 0 || t < 0x20_0000_0000_0000 * g {
        g
    } else {
        gap_from(t, 2 * g)
    }
}

/// The double nearest to a whole number.
pub open spec fn nearest_double(t: nat) -> nat {
    nearest_even(t, gap_from(t, 1)) * gap_from(t, 1)
}

/// How many of `n` parts `v` is of `max`, in doubles: the quotient, times `n`,
/// to the nearest whole number, halves up.
pub open spec fn parts(v: nat, max: nat, n: nat) -> nat {
    if v == 0 {
        0
    } else {
        let (q, p) = double_quotient(as_double(v), as_double(max));
        (2 * nearest_double(q * n) + p) / (2 * p)
    }
}

fn to_even(n: u128, d: u128) -> (q: u128)
    requires
        0 < d,
        d <= 0x100_0000_0000_0000_0000_0000_0000_0000,
    ensures
        q as nat == nearest_even(n as nat, d as nat),
        q <= n as int / d as int + 1,
{
    let q: u128 = n / d;
    let r: u128 = n % d;
    if 2 * r > d || (2 * r == d && q % 2 == 1) {
        proof {
            assert(d > 1);
            assert(q < 0xffff_ffff_ffff_ffff_ffff_ffff_ffff_ffff) by (nonlinear_arith)
                requires
                    q == n / d,
                    d > 1,
                    n <= 0xffff_ffff_ffff_ffff_ffff_ffff_ffff_ffff,
            ;
        }
        q + 1
    } else {
        q
    }
}

fn quotient(a: u128, b: u128) -> (r: (u128, u128))
    requires
        0 < a <= 0x1_0000_0000_0000_0000,
        0 < b <= 0x1_0000_0000_0000_0000,
    ensures
        (r.0 as nat, r.1 as nat) == double_quotient(a as nat, b as nat),
        r.0 <= 0x1_0000_0000_0000_0001,
        0 < r.1 < 0x20_0000_0000_0000_0000_0000_0000_0000,
{
    let mut x: u128 = a;
    let mut p: u128 = 1;
    let least: u128 = 0x10_0000_0000_0000 * b;
    while x < least
        invariant
            0 < a <= 0x1_0000_0000_0000_0000,
            0 < b <= 0x1_0000_0000_0000_0000,
            least == 0x10_0000_0000_0000 * b,
            a <= x,
            x < 2 * least || x == a,
            p > 0,
            p * a == x,
            stretched(a as nat, b as nat, 1) == stretched(x as nat, b as nat, p as nat),
        decreases (if x < least { least - x } else { 0 }),
    {
        proof {
            assert(p <= x) by (nonlinear_arith)
                requires
                    p * a == x,
                    a >= 1,
                    p > 0,
            ;
            assert((2 * p) * a == 2 * x) by (nonlinear_arith)
                requires
                    p * a == x,
            ;
        }
        x = 2 * x;
        p = 2 * p;
    }
    proof {
        assert(p <= x) by (nonlinear_arith)
            requires
                p * a == x,
                a >= 1,
                p > 0,
        ;
        assert(x as int / b as int <= 0x1_0000_0000_0000_0000) by (nonlinear_arith)
            requires
                b >= 1,
                x < 2 * (0x10_0000_0000_0000 * b) || x <= 0x1_0000_0000_0000_0000,
        ;
    }
    (to_even(x, b), p)
}

fn rounded(t: u128) -> (r: u128)
    requires
        t <= 0x1_0000_0000_0000_0000_0000_0000,
    ensures
        r as nat == nearest_double(t as nat),
        r <= 3 * t + 1,
{
    let mut g: u128 = 1;
    while t >= 0x20_0000_0000_0000 * g
        invariant
            t <= 0x1_0000_0000_0000_0000_0000_0000,
            0 < g,
            g == 1 || 0x10_0000_0000_0000 * g <= t,
            gap_from(t as nat, 1) == gap_from(t as nat, g as nat),
        decreases t - g,
    {
        g = 2 * g;
    }
    let q: u128 = to_even(t, g);
    proof {
        assert(0 <= q * g <= t + g) by (nonlinear_arith)
            requires
                0 <= q <= t as int / g as int + 1,
                g > 0,
        ;
    }
    q * g
}

/// How many of `n` parts `v` is of `max`, in doubles.
pub fn parts_of(v: u64, max: u64, n: u32) -> (e: u128)
    requires
        v <= max,
    ensures
        e as nat == parts(v as nat, max as nat, n as nat),
{
    if v == 0 {
        return 0;
    }
    let (q, p) = quotient(double_of(v), double_of(max));
    proof {
        assert(0 <= q * n <= 0x1_0000_0000_0000_0001 * 0xffff_ffff) by (nonlinear_arith)
            requires
                0 <= q <= 0x1_0000_0000_0000_0001,
                0 <= n <= 0xffff_ffff,
        ;
    }
    let t: u128 = rounded(q * n as u128);
    (2 * t + p) / (2 * p)
}

// ── Laws ─────────────────────────────────────────────────────────────────

proof fn whole_stretch(b: nat, i: nat)
    requires
        b > 0,
        i <= 52,
    ensures
        stretched(pow2(i) * b, b, pow2(i)) == (pow2(52) * b, pow2(52)),
    decreases 52 - i,
{
    vstd::arithmetic::power2::lemma2_to64();
    vstd::arithmetic::power2::lemma2_to64_rest();
    vstd::arithmetic::power2::lemma_pow2_pos(i);
    assert(pow2(i) * b > 0) by (nonlinear_arith)
        requires
            pow2(i) > 0,
            b > 0,
    ;
    if i < 52 {
        vstd::arithmetic::power2::lemma_pow2_unfold(i + 1);
        vstd::arithmetic::power2::lemma_pow2_strictly_increases(i, 52);
        assert(pow2(i) * b < pow2(52) * b) by (nonlinear_arith)
            requires
                pow2(i) < pow2(52),
                b > 0,
        ;
        assert(pow2(i + 1) * b == 2 * (pow2(i) * b)) by (nonlinear_arith)
            requires
                pow2(i + 1) == 2 * pow2(i),
        ;
        whole_stretch(b, i + 1);
    }
}

proof fn whole_gap(n: nat, i: nat) -> (j: nat)
    requires
        n < 0x1_0000_0000,
        i <= 32,
    ensures
        gap_from(pow2(52) * n, pow2(i)) == pow2(j),
        j <= 33,
    decreases 33 - i,
{
    vstd::arithmetic::power2::lemma2_to64();
    vstd::arithmetic::power2::lemma2_to64_rest();
    vstd::arithmetic::power2::lemma_pow2_pos(i);
    vstd::arithmetic::power2::lemma_pow2_unfold(i + 1);
    if pow2(52) * n < 0x20_0000_0000_0000 * pow2(i) {
        i
    } else {
        assert(n >= 2 * pow2(i));
        if i == 32 {
            assert(false);
        }
        whole_gap(n, i + 1)
    }
}

proof fn even_grows(m: nat, n: nat, d: nat)
    requires
        m <= n,
        d > 0,
    ensures
        nearest_even(m, d) <= nearest_even(n, d),
{
    vstd::arithmetic::div_mod::lemma_div_is_ordered(m as int, n as int, d as int);
    vstd::arithmetic::div_mod::lemma_fundamental_div_mod(m as int, d as int);
    vstd::arithmetic::div_mod::lemma_fundamental_div_mod(n as int, d as int);
    if m / d == n / d {
        assert(d * (m / d) == d * (n / d));
    }
}

/// A number on one side of a multiple rounds to that side.
proof fn even_keeps_sides(n: nat, d: nat, k: nat)
    requires
        d > 0,
    ensures
        n <= k * d ==> nearest_even(n, d) <= k,
        n >= k * d ==> nearest_even(n, d) >= k,
{
    vstd::arithmetic::div_mod::lemma_fundamental_div_mod_converse((k * d) as int, d as int, k as int, 0);
    assert(nearest_even(k * d, d) == k);
    if n <= k * d {
        even_grows(n, k * d, d);
    }
    if n >= k * d {
        even_grows(k * d, n, d);
    }
}

/// Rounding to 53 bits keeps an order, whatever the two gaps are.
proof fn rounding_grows(m: nat, n: nat, g: nat, h: nat)
    requires
        m <= n,
        g > 0,
        h > 0,
        m < 0x20_0000_0000_0000 * g,
        g == h || (2 * g <= h && n >= 0x10_0000_0000_0000 * h),
    ensures
        nearest_even(m, g) * g <= nearest_even(n, h) * h,
{
    if g == h {
        even_grows(m, n, g);
        assert(nearest_even(m, g) * g <= nearest_even(n, g) * g) by (nonlinear_arith)
            requires
                nearest_even(m, g) <= nearest_even(n, g),
        ;
    } else {
        even_keeps_sides(m, g, 0x20_0000_0000_0000);
        even_keeps_sides(n, h, 0x10_0000_0000_0000);
        assert(nearest_even(m, g) * g <= 0x20_0000_0000_0000 * g) by (nonlinear_arith)
            requires
                nearest_even(m, g) <= 0x20_0000_0000_0000,
        ;
        assert(0x10_0000_0000_0000 * h <= nearest_even(n, h) * h) by (nonlinear_arith)
            requires
                0x10_0000_0000_0000 <= nearest_even(n, h),
        ;
    }
}

/// What a gap is: a power of two, the least that leaves 53 bits.
proof fn gap_is(t: nat, i: nat) -> (j: nat)
    requires
        i == 0 || t >= 0x10_0000_0000_0000 * pow2(i),
    ensures
        gap_from(t, pow2(i)) == pow2(j),
        i <= j,
        t < 0x20_0000_0000_0000 * pow2(j),
        j == 0 || t >= 0x10_0000_0000_0000 * pow2(j),
    decreases t - pow2(i),
{
    vstd::arithmetic::power2::lemma_pow2_pos(i);
    if t < 0x20_0000_0000_0000 * pow2(i) {
        i
    } else {
        vstd::arithmetic::power2::lemma_pow2_unfold(i + 1);
        gap_is(t, i + 1)
    }
}

proof fn doubles_grow(m: nat, n: nat)
    requires
        m <= n,
    ensures
        nearest_double(m) <= nearest_double(n),
{
    vstd::arithmetic::power2::lemma2_to64();
    let i = gap_is(m, 0);
    let j = gap_is(n, 0);
    vstd::arithmetic::power2::lemma_pow2_pos(i);
    vstd::arithmetic::power2::lemma_pow2_pos(j);
    if i < j {
        vstd::arithmetic::power2::lemma_pow2_unfold(j);
        if i < j - 1 {
            vstd::arithmetic::power2::lemma_pow2_strictly_increases(i, (j - 1) as nat);
        }
    } else if j < i {
        vstd::arithmetic::power2::lemma_pow2_unfold(i);
        if j < i - 1 {
            vstd::arithmetic::power2::lemma_pow2_strictly_increases(j, (i - 1) as nat);
        }
    }
    rounding_grows(m, n, pow2(i), pow2(j));
}

proof fn gap_doubles(t: nat, g: nat)
    requires
        g > 0,
    ensures
        gap_from(2 * t, 2 * g) == 2 * gap_from(t, g),
    decreases t - g,
{
    if t >= 0x20_0000_0000_0000 * g {
        gap_doubles(t, 2 * g);
    }
}

/// Twice a number rounds to twice its double.
proof fn doubles_double(t: nat)
    ensures
        nearest_double(2 * t) == 2 * nearest_double(t),
{
    if t < 0x10_0000_0000_0000 {
        assert(gap_from(t, 1) == 1 && gap_from(2 * t, 1) == 1);
    } else {
        let g = gap_from(t, 1);
        vstd::arithmetic::power2::lemma2_to64();
        let j = gap_is(t, 0);
        vstd::arithmetic::power2::lemma_pow2_pos(j);
        gap_doubles(t, 1);
        assert(gap_from(2 * t, 1) == gap_from(2 * t, 2));
        vstd::arithmetic::div_mod::lemma_fundamental_div_mod(t as int, g as int);
        let (q, r) = (t / g, t % g);
        assert(2 * t == q * (2 * g) + 2 * r) by (nonlinear_arith)
            requires
                t == g * q + r,
        ;
        vstd::arithmetic::div_mod::lemma_fundamental_div_mod_converse(
            (2 * t) as int,
            (2 * g) as int,
            q as int,
            (2 * r) as int,
        );
        assert(nearest_even(2 * t, 2 * g) == nearest_even(t, g));
        let e = nearest_even(t, g);
        assert(e * (2 * g) == 2 * (e * g)) by (nonlinear_arith);
    }
}

proof fn doubles_scale(t: nat, i: nat)
    ensures
        nearest_double(t * pow2(i)) == nearest_double(t) * pow2(i),
    decreases i,
{
    vstd::arithmetic::power2::lemma2_to64();
    if i > 0 {
        let k = (i - 1) as nat;
        doubles_scale(t, k);
        doubles_double(t * pow2(k));
        vstd::arithmetic::power2::lemma_pow2_unfold(i);
        assert(t * pow2(i) == 2 * (t * pow2(k))) by (nonlinear_arith)
            requires
                pow2(i) == 2 * pow2(k),
        ;
        assert(nearest_double(t) * pow2(i) == 2 * (nearest_double(t) * pow2(k))) by (nonlinear_arith)
            requires
                pow2(i) == 2 * pow2(k),
        ;
    } else {
        assert(t * 1 == t) by (nonlinear_arith);
        assert(nearest_double(t) * 1 == nearest_double(t)) by (nonlinear_arith);
    }
}

/// What stretching does: the same power of two times both, the least that
/// makes the quotient one of 53 bits.
proof fn stretch_is(a: nat, b: nat, i: nat) -> (j: nat)
    requires
        0 < a <= b,
        i == 0 || a * pow2(i) < 0x20_0000_0000_0000 * b,
    ensures
        stretched(a * pow2(i), b, pow2(i)) == (a * pow2(j), pow2(j)),
        0x10_0000_0000_0000 * b <= a * pow2(j) < 0x20_0000_0000_0000 * b,
    decreases (if a * pow2(i) < 0x10_0000_0000_0000 * b { 0x10_0000_0000_0000 * b - a * pow2(i) } else { 0 }),
{
    vstd::arithmetic::power2::lemma2_to64();
    vstd::arithmetic::power2::lemma_pow2_pos(i);
    assert(a * pow2(i) > 0) by (nonlinear_arith)
        requires
            a > 0,
            pow2(i) > 0,
    ;
    assert(a * 1 == a) by (nonlinear_arith);
    if a * pow2(i) >= 0x10_0000_0000_0000 * b {
        i
    } else {
        vstd::arithmetic::power2::lemma_pow2_unfold(i + 1);
        assert(a * pow2(i + 1) == 2 * (a * pow2(i))) by (nonlinear_arith)
            requires
                pow2(i + 1) == 2 * pow2(i),
        ;
        stretch_is(a, b, i + 1)
    }
}

/// A larger number has no smaller part of the whole.
pub proof fn parts_grow(v: nat, w: nat, max: nat, n: nat)
    requires
        v <= w <= max <= u64::MAX,
    ensures
        parts(v, max, n) <= parts(w, max, n),
{
    if v > 0 {
        let (a, c, b) = (as_double(v), as_double(w), as_double(max));
        crate::text::doubles_are_positive(v);
        crate::text::doubles_are_positive(w);
        crate::text::doubles_are_positive(max);
        rounding_grows(v, w, double_gap(v), double_gap(w));
        rounding_grows(w, max, double_gap(w), double_gap(max));
        let i = stretch_is(a, b, 0);
        let j = stretch_is(c, b, 0);
        vstd::arithmetic::power2::lemma2_to64();
        assert(a * 1 == a && c * 1 == c) by (nonlinear_arith);
        quotients_grow(a, c, b, i, j, n);
    }
}

proof fn quotients_grow(a: nat, c: nat, b: nat, i: nat, j: nat, n: nat)
    requires
        0 < a <= c <= b,
        stretched(a, b, 1) == (a * pow2(i), pow2(i)),
        stretched(c, b, 1) == (c * pow2(j), pow2(j)),
        0x10_0000_0000_0000 * b <= a * pow2(i) < 0x20_0000_0000_0000 * b,
        0x10_0000_0000_0000 * b <= c * pow2(j) < 0x20_0000_0000_0000 * b,
    ensures
        ({
            let (q, p) = double_quotient(a, b);
            let (r, s) = double_quotient(c, b);
            (2 * nearest_double(q * n) + p) / (2 * p) <= (2 * nearest_double(r * n) + s) / (2 * s)
        }),
{
    let (x, y) = (a * pow2(i), c * pow2(j));
    let (p, s) = (pow2(i), pow2(j));
    let (q, r) = (nearest_even(x, b), nearest_even(y, b));
    vstd::arithmetic::power2::lemma_pow2_pos(i);
    vstd::arithmetic::power2::lemma_pow2_pos(j);
    if i < j {
        // The smaller number would have been stretched too little.
        vstd::arithmetic::power2::lemma_pow2_unfold(j);
        if i < j - 1 {
            vstd::arithmetic::power2::lemma_pow2_strictly_increases(i, (j - 1) as nat);
        }
        assert(2 * (a * p) <= c * s) by (nonlinear_arith)
            requires
                2 * p <= s,
                a <= c,
        ;
        assert(false);
    }
    let k = (i - j) as nat;
    let m = pow2(k);
    vstd::arithmetic::power2::lemma_pow2_adds(j, k);
    vstd::arithmetic::power2::lemma_pow2_pos(k);
    assert(q <= r * m) by {
        even_keeps_sides(x, b, 0x20_0000_0000_0000);
        even_keeps_sides(y, b, 0x10_0000_0000_0000);
        if k == 0 {
            vstd::arithmetic::power2::lemma2_to64();
            assert(x <= y) by (nonlinear_arith)
                requires
                    x == a * p,
                    y == c * s,
                    p == s,
                    a <= c,
            ;
            even_grows(x, y, b);
            assert(r * 1 == r) by (nonlinear_arith);
        } else {
            vstd::arithmetic::power2::lemma_pow2_unfold(k);
            vstd::arithmetic::power2::lemma_pow2_pos((k - 1) as nat);
            assert(0x10_0000_0000_0000 * 2 <= r * m) by (nonlinear_arith)
                requires
                    r >= 0x10_0000_0000_0000,
                    m >= 2,
            ;
        }
    }
    assert(q * n <= (r * n) * m) by (nonlinear_arith)
        requires
            q <= r * m,
    ;
    doubles_grow(q * n, (r * n) * m);
    doubles_scale(r * n, k);
    let (t, u) = (nearest_double(q * n), nearest_double(r * n));
    let e = (2 * t + p) / (2 * p);
    let f = (2 * u + s) / (2 * s);
    vstd::arithmetic::div_mod::lemma_fundamental_div_mod((2 * t + p) as int, (2 * p) as int);
    vstd::arithmetic::div_mod::lemma_fundamental_div_mod((2 * u + s) as int, (2 * s) as int);
    assert(e <= f) by (nonlinear_arith)
        requires
            t <= u * m,
            p == s * m,
            m > 0,
            s > 0,
            (2 * p) * e <= 2 * t + p,
            2 * u + s < (2 * s) * f + 2 * s,
    ;
}

/// The whole is all of its parts, and nothing is none of them.
pub proof fn the_whole_is_every_part(max: nat, n: nat)
    requires
        0 < max <= u64::MAX,
        n < 0x1_0000_0000,
    ensures
        parts(max, max, n) == n,
        parts(0, max, n) == 0,
{
    let b = as_double(max);
    crate::text::doubles_are_positive(max);
    vstd::arithmetic::power2::lemma2_to64();
    vstd::arithmetic::power2::lemma2_to64_rest();
    whole_stretch(b, 0);
    assert(pow2(0) * b == b) by (nonlinear_arith)
        requires
            pow2(0) == 1,
    ;
    vstd::arithmetic::div_mod::lemma_fundamental_div_mod_converse((pow2(52) * b) as int, b as int, pow2(52) as int, 0);
    assert(double_quotient(b, b) == (pow2(52), pow2(52)));
    let j = whole_gap(n, 0);
    let t = pow2(52) * n;
    let h = pow2((52 - j) as nat);
    vstd::arithmetic::power2::lemma_pow2_adds(j, (52 - j) as nat);
    vstd::arithmetic::power2::lemma_pow2_pos(j);
    assert(t == (h * n) * pow2(j)) by (nonlinear_arith)
        requires
            t == pow2(52) * n,
            pow2(j) * h == pow2(52),
    ;
    vstd::arithmetic::div_mod::lemma_fundamental_div_mod_converse(t as int, pow2(j) as int, (h * n) as int, 0);
    assert(nearest_double(t) == t);
    let p = pow2(52);
    vstd::arithmetic::div_mod::lemma_fundamental_div_mod_converse((2 * t + p) as int, (2 * p) as int, n as int, p as int);
}

} // verus!
