//! Single-precision (IEEE 754 binary32) arithmetic on the magnitudes the
//! icon's gradient needs, modelled with integers.
//!
//! A quantity is held as a whole number of units, one unit being two to the
//! power of minus twenty-nine. Every binary32 number from one sixty-fourth up
//! to, but not including, five hundred and twelve is a whole number of units,
//! and so is zero. Each operation gives the exact result rounded to the
//! nearest representable number, ties going to the even significand.

use vstd::prelude::*;
use vstd::arithmetic::div_mod::{lemma_fundamental_div_mod, lemma_mod_multiples_basic};

verus! {

/// The number one, in units.
pub const UNIT: u64 = 0x2000_0000;

/// Magnitudes from this many units on are not modelled.
pub const LIMIT: u64 = 0x40_0000_0000;

/// The distance, in units, between neighbouring representable numbers at
/// the magnitude `v`: one unit below two to the twenty-fourth units, and
/// twice as much each time the magnitude doubles.
pub open spec fn spacing(v: nat) -> nat {
    if v < 0x100_0000 {
        1
    } else if v < 0x200_0000 {
        2
    } else if v < 0x400_0000 {
        4
    } else if v < 0x800_0000 {
        8
    } else if v < 0x1000_0000 {
        16
    } else if v < 0x2000_0000 {
        32
    } else if v < 0x4000_0000 {
        64
    } else if v < 0x8000_0000 {
        128
    } else if v < 0x1_0000_0000 {
        256
    } else if v < 0x2_0000_0000 {
        512
    } else if v < 0x4_0000_0000 {
        1024
    } else if v < 0x8_0000_0000 {
        2048
    } else if v < 0x10_0000_0000 {
        4096
    } else if v < 0x20_0000_0000 {
        8192
    } else {
        16384
    }
}

/// Whether `v` units is a representable number.
pub open spec fn representable(v: nat) -> bool {
    v < LIMIT && v % spacing(v) == 0
}

/// The whole number nearest to `a / b`; of two equally near, the even one.
pub open spec fn round_half_even(a: nat, b: nat) -> nat {
    let q = a / b;
    let r = a % b;
    if 2 * r < b {
        q
    } else if 2 * r > b {
        q + 1
    } else if q % 2 == 0 {
        q
    } else {
        q + 1
    }
}

/// The representable number nearest to `num / den` units.
pub open spec fn nearest(num: nat, den: nat) -> nat {
    let u = spacing(num / den);
    round_half_even(num, den * u) * u
}

/// A spacing is one of fifteen powers of two.
pub open spec fn is_spacing(u: nat) -> bool {
    u == 1 || u == 2 || u == 4 || u == 8 || u == 16 || u == 32 || u == 64 || u == 128 || u == 256
        || u == 512 || u == 1024 || u == 2048 || u == 4096 || u == 8192 || u == 16384
}

/// The shape of `spacing`: a power of two that grows with the magnitude and
/// keeps the significand between two to the twenty-third and two to the
/// twenty-fourth.
pub proof fn lemma_spacing(v: nat)
    requires
        v < LIMIT,
    ensures
        is_spacing(spacing(v)),
        v < 0x100_0000 * spacing(v),
        spacing(v) > 1 ==> v >= 0x80_0000 * spacing(v),
{
}

/// A larger magnitude has the same spacing or at least twice the spacing,
/// and the smaller spacing divides the larger.
pub proof fn lemma_spacing_grows(v: nat, w: nat)
    requires
        v <= w < LIMIT,
    ensures
        spacing(v) <= spacing(w),
        spacing(v) < spacing(w) ==> 2 * spacing(v) <= spacing(w),
        spacing(w) % spacing(v) == 0,
{
    lemma_spacing(v);
    lemma_spacing(w);
}

/// Rounding does not step over a whole number.
pub proof fn lemma_round_keeps_side(a: nat, b: nat, n: nat)
    requires
        b > 0,
    ensures
        a <= n * b ==> round_half_even(a, b) <= n,
        a >= n * b ==> round_half_even(a, b) >= n,
        a / b <= round_half_even(a, b) <= a / b + 1,
{
    let q = a / b;
    let r = a % b;
    lemma_fundamental_div_mod(a as int, b as int);
    assert(a == b * q + r);
    if a <= n * b {
        assert(q <= n) by (nonlinear_arith)
            requires
                a == b * q + r,
                0 <= r,
                a <= n * b,
                b > 0,
        ;
        if q == n {
            assert(r == 0) by (nonlinear_arith)
                requires
                    a == b * q + r,
                    0 <= r,
                    a <= n * b,
                    q == n,
            ;
        }
    }
    if a >= n * b {
        assert(q >= n) by (nonlinear_arith)
            requires
                a == b * q + r,
                r < b,
                a >= n * b,
                b > 0,
        ;
    }
}

/// Rounding keeps the order of two quotients with one divisor.
pub proof fn lemma_round_monotone(a1: nat, a2: nat, b: nat)
    requires
        b > 0,
        a1 <= a2,
    ensures
        round_half_even(a1, b) <= round_half_even(a2, b),
{
    let q1 = a1 / b;
    let r1 = a1 % b;
    let q2 = a2 / b;
    let r2 = a2 % b;
    lemma_fundamental_div_mod(a1 as int, b as int);
    lemma_fundamental_div_mod(a2 as int, b as int);
    assert(q1 <= q2) by (nonlinear_arith)
        requires
            a1 == b * q1 + r1,
            a2 == b * q2 + r2,
            0 <= r1,
            r2 < b,
            a1 <= a2,
            b > 0,
    ;
    if q1 == q2 {
        assert(r1 <= r2) by (nonlinear_arith)
            requires
                a1 == b * q1 + r1,
                a2 == b * q2 + r2,
                q1 == q2,
                a1 <= a2,
        ;
    }
}

/// The nearest representable number does not step over a representable
/// number: it stays on the side of `g` on which `num / den` lies.
pub proof fn lemma_nearest_keeps_side(num: nat, den: nat, g: nat)
    requires
        den > 0,
        num / den < LIMIT,
        representable(g),
    ensures
        num <= g * den ==> nearest(num, den) <= g,
        num >= g * den ==> nearest(num, den) >= g,
{
    let v = num / den;
    let u = spacing(v);
    let ug = spacing(g);
    let k = round_half_even(num, den * u);
    lemma_spacing(v);
    lemma_spacing(g);
    lemma_fundamental_div_mod(num as int, den as int);
    assert(den * u > 0) by (nonlinear_arith)
        requires
            den > 0,
            u > 0,
    ;
    if num <= g * den {
        assert(v <= g) by (nonlinear_arith)
            requires
                num == den * v + num % den,
                0 <= num % den,
                num <= g * den,
                den > 0,
        ;
        lemma_spacing_grows(v, g);
        // the spacing at `v` divides `g`
        let t = ug / u;
        lemma_fundamental_div_mod(ug as int, u as int);
        lemma_fundamental_div_mod(g as int, ug as int);
        let j = g / ug;
        assert(g == (j * t) * u) by (nonlinear_arith)
            requires
                g == ug * j,
                ug == u * t,
        ;
        assert(num <= (j * t) * (den * u)) by (nonlinear_arith)
            requires
                num <= g * den,
                g == (j * t) * u,
        ;
        lemma_round_keeps_side(num, den * u, j * t);
        assert(k * u <= g) by (nonlinear_arith)
            requires
                k <= j * t,
                g == (j * t) * u,
        ;
    }
    if num >= g * den {
        assert(v >= g) by (nonlinear_arith)
            requires
                num == den * v + num % den,
                num % den < den,
                num >= g * den,
                den > 0,
        ;
        lemma_spacing_grows(g, v);
        if u == ug {
            lemma_fundamental_div_mod(g as int, ug as int);
            let j = g / ug;
            assert(num >= j * (den * u)) by (nonlinear_arith)
                requires
                    num >= g * den,
                    g == u * j,
            ;
            lemma_round_keeps_side(num, den * u, j);
            assert(k * u >= g) by (nonlinear_arith)
                requires
                    k >= j,
                    g == u * j,
            ;
        } else {
            // `g` lies below the binade of `v`, whose lower end is representable
            assert(num >= 0x80_0000 * (den * u)) by (nonlinear_arith)
                requires
                    num == den * v + num % den,
                    0 <= num % den,
                    v >= 0x80_0000 * u,
            ;
            lemma_round_keeps_side(num, den * u, 0x80_0000);
            assert(k * u >= 0x80_0000 * u) by (nonlinear_arith)
                requires
                    k >= 0x80_0000,
            ;
        }
    }
}

/// The nearest representable number keeps the order of two quotients with
/// one divisor.
pub proof fn lemma_nearest_monotone(n1: nat, n2: nat, den: nat)
    requires
        den > 0,
        n1 <= n2,
        n2 / den < LIMIT,
    ensures
        nearest(n1, den) <= nearest(n2, den),
{
    let v1 = n1 / den;
    let v2 = n2 / den;
    let u1 = spacing(v1);
    let u2 = spacing(v2);
    lemma_fundamental_div_mod(n1 as int, den as int);
    lemma_fundamental_div_mod(n2 as int, den as int);
    assert(v1 <= v2) by (nonlinear_arith)
        requires
            n1 == den * v1 + n1 % den,
            n2 == den * v2 + n2 % den,
            0 <= n1 % den,
            n2 % den < den,
            n1 <= n2,
            den > 0,
    ;
    lemma_spacing(v1);
    lemma_spacing(v2);
    lemma_spacing_grows(v1, v2);
    if u1 == u2 {
        assert(den * u1 > 0) by (nonlinear_arith)
            requires
                den > 0,
                u1 > 0,
        ;
        lemma_round_monotone(n1, n2, den * u1);
        assert(round_half_even(n1, den * u1) * u1 <= round_half_even(n2, den * u1) * u1)
            by (nonlinear_arith)
            requires
                round_half_even(n1, den * u1) <= round_half_even(n2, den * u1),
        ;
    } else {
        // the lower end of the binade of `v2` lies between the two
        let g: nat = 0x80_0000 * u2;
        assert(representable(g));
        assert(n1 <= g * den) by (nonlinear_arith)
            requires
                n1 == den * v1 + n1 % den,
                n1 % den < den,
                v1 < 0x100_0000 * u1,
                2 * u1 <= u2,
                g == 0x80_0000 * u2,
                den > 0,
        ;
        assert(n2 >= g * den) by (nonlinear_arith)
            requires
                n2 == den * v2 + n2 % den,
                0 <= n2 % den,
                v2 >= g,
                den > 0,
        ;
        lemma_nearest_keeps_side(n1, den, g);
        lemma_nearest_keeps_side(n2, den, g);
    }
}

/// A representable number is its own nearest representable number.
pub proof fn lemma_nearest_of_representable(g: nat, den: nat)
    requires
        den > 0,
        representable(g),
    ensures
        nearest(g * den, den) == g,
{
    assert((g * den) / den == g) by (nonlinear_arith)
        requires
            den > 0,
    ;
    lemma_nearest_keeps_side(g * den, den, g);
}

/// Computes the spacing of representable numbers at the magnitude `v`.
pub fn spacing_at(v: u64) -> (u: u64)
    ensures
        u == spacing(v as nat),
{
    if v < 0x100_0000 {
        1
    } else if v < 0x200_0000 {
        2
    } else if v < 0x400_0000 {
        4
    } else if v < 0x800_0000 {
        8
    } else if v < 0x1000_0000 {
        16
    } else if v < 0x2000_0000 {
        32
    } else if v < 0x4000_0000 {
        64
    } else if v < 0x8000_0000 {
        128
    } else if v < 0x1_0000_0000 {
        256
    } else if v < 0x2_0000_0000 {
        512
    } else if v < 0x4_0000_0000 {
        1024
    } else if v < 0x8_0000_0000 {
        2048
    } else if v < 0x10_0000_0000 {
        4096
    } else if v < 0x20_0000_0000 {
        8192
    } else {
        16384
    }
}

/// Rounds `a / b` to the nearest whole number, ties to the even one.
pub fn round_half_even_of(a: u64, b: u64) -> (k: u64)
    requires
        0 < b <= 0x4000_0000_0000_0000,
    ensures
        k == round_half_even(a as nat, b as nat),
{
    let q: u64 = a / b;
    let r: u64 = a % b;
    proof {
        lemma_fundamental_div_mod(a as int, b as int);
        if b >= 2 {
            assert(2 * q <= a) by (nonlinear_arith)
                requires
                    a == b * q + r,
                    0 <= r,
                    b >= 2,
                    q >= 0,
            ;
        }
    }
    if r < b - r {
        q
    } else if r > b - r {
        q + 1
    } else if q % 2 == 0 {
        q
    } else {
        q + 1
    }
}

/// Rounds `num / den` units to the nearest representable number.
pub fn nearest_of(num: u64, den: u64) -> (r: u64)
    requires
        0 < den <= UNIT,
        num / den < LIMIT,
    ensures
        r == nearest(num as nat, den as nat),
        r <= LIMIT,
{
    let v: u64 = num / den;
    let u: u64 = spacing_at(v);
    proof {
        lemma_spacing(v as nat);
        lemma_fundamental_div_mod(num as int, den as int);
        assert(num < 0x100_0000 * (den * u)) by (nonlinear_arith)
            requires
                num == den * v + num % den,
                num % den < den,
                v < 0x100_0000 * u,
                den > 0,
        ;
        assert(0 < den * u <= 0x2000_0000 * 16384) by (nonlinear_arith)
            requires
                0 < den <= 0x2000_0000,
                0 < u <= 16384,
        ;
        lemma_round_keeps_side(num as nat, (den * u) as nat, 0x100_0000);
    }
    let k: u64 = round_half_even_of(num, den * u);
    assert(k * u <= 0x100_0000 * 16384) by (nonlinear_arith)
        requires
            k <= 0x100_0000,
            0 < u <= 16384,
    ;
    k * u
}

/// Whether `f` is the whole part of the square root of `m`.
pub open spec fn is_floor_root(m: nat, f: nat) -> bool {
    f * f <= m < (f + 1) * (f + 1)
}

/// The whole part of the square root of `m`.
pub open spec fn floor_root(m: nat) -> nat {
    choose|f: nat| is_floor_root(m, f)
}

/// The whole number nearest to the square root of `m`. The root of a whole
/// number never lies halfway between two whole numbers.
pub open spec fn round_root(m: nat) -> nat {
    let f = floor_root(m);
    if m - f * f > f {
        f + 1
    } else {
        f
    }
}

/// At most one number is the whole part of the square root of `m`.
pub proof fn lemma_floor_root_unique(m: nat, f: nat, g: nat)
    requires
        is_floor_root(m, f),
        is_floor_root(m, g),
    ensures
        f == g,
{
    if f < g {
        assert((f + 1) * (f + 1) <= g * g) by (nonlinear_arith)
            requires
                f + 1 <= g,
        ;
    }
    if g < f {
        assert((g + 1) * (g + 1) <= f * f) by (nonlinear_arith)
            requires
                g + 1 <= f,
        ;
    }
}

/// Computes the whole part of the square root of `m` by bisection.
pub fn floor_root_of(m: u64) -> (f: u64)
    requires
        m < 0x1_0000_0000_0000,
    ensures
        is_floor_root(m as nat, f as nat),
        f == floor_root(m as nat),
        f < 0x100_0000,
{
    let mut lo: u64 = 0;
    let mut hi: u64 = 0x100_0000;
    assert(0x100_0000 * 0x100_0000 == 0x1_0000_0000_0000) by (nonlinear_arith);
    while hi - lo > 1
        invariant
            lo < hi <= 0x100_0000,
            lo * lo <= m < hi * hi,
        decreases hi - lo,
    {
        let mid: u64 = lo + (hi - lo) / 2;
        assert(mid * mid < 0x100_0000 * 0x100_0000) by (nonlinear_arith)
            requires
                mid < 0x100_0000,
        ;
        if mid * mid <= m {
            lo = mid;
        } else {
            hi = mid;
        }
    }
    proof {
        assert(is_floor_root(m as nat, lo as nat));
        lemma_floor_root_unique(m as nat, lo as nat, floor_root(m as nat));
    }
    lo
}

/// What `floor_root` and `round_root` are on a number with a known bound:
/// the whole part of the root exists, and rounding stays on the side of `n`
/// on which the root lies.
pub proof fn lemma_round_root(m: nat, n: nat)
    ensures
        is_floor_root(m, floor_root(m)),
        floor_root(m) <= round_root(m) <= floor_root(m) + 1,
        m <= n * n ==> round_root(m) <= n,
        m >= n * n ==> round_root(m) >= n,
{
    lemma_floor_root_exists(m);
    let f = floor_root(m);
    if m <= n * n {
        if f >= n {
            assert(f * f >= n * n) by (nonlinear_arith)
                requires
                    f >= n,
            ;
            // then m == f * f, which rounds to f
            assert(f == n) by (nonlinear_arith)
                requires
                    f >= n,
                    f * f <= n * n,
            ;
        }
    }
    if m >= n * n {
        if f < n {
            assert((f + 1) * (f + 1) <= n * n) by (nonlinear_arith)
                requires
                    f + 1 <= n,
            ;
        }
    }
}

/// Every number has a whole part of its square root.
pub proof fn lemma_floor_root_exists(m: nat)
    ensures
        is_floor_root(m, floor_root(m)),
    decreases m,
{
    if m == 0 {
        assert(0nat * 0nat == 0 && (0nat + 1) * (0nat + 1) == 1) by (nonlinear_arith);
        assert(is_floor_root(0, 0));
    } else {
        lemma_floor_root_exists((m - 1) as nat);
        let f = floor_root((m - 1) as nat);
        if m < (f + 1) * (f + 1) {
            assert(is_floor_root(m, f));
        } else {
            assert((f + 1) * (f + 1) < (f + 2) * (f + 2)) by (nonlinear_arith);
            assert(is_floor_root(m, f + 1));
        }
    }
}

/// Rounded roots keep the order of their arguments.
pub proof fn lemma_round_root_monotone(m1: nat, m2: nat)
    requires
        m1 <= m2,
    ensures
        round_root(m1) <= round_root(m2),
{
    lemma_round_root(m1, 0);
    lemma_round_root(m2, 0);
    let f1 = floor_root(m1);
    let f2 = floor_root(m2);
    if f1 > f2 {
        assert((f2 + 1) * (f2 + 1) <= f1 * f1) by (nonlinear_arith)
            requires
                f2 + 1 <= f1,
        ;
    }
}

/// Computes the whole number nearest to the square root of `m`.
pub fn round_root_of(m: u64) -> (k: u64)
    requires
        m < 0x1_0000_0000_0000,
    ensures
        k == round_root(m as nat),
        k <= 0x100_0000,
{
    let f: u64 = floor_root_of(m);
    assert(f * f <= m);
    if m - f * f > f {
        f + 1
    } else {
        f
    }
}

/// The spacing of representable numbers at the square root of `n`, for `n`
/// from 1 to 255: the root of a number below four lies below two, and so on.
pub open spec fn root_spacing(n: nat) -> nat {
    if n < 4 {
        64
    } else if n < 16 {
        128
    } else if n < 64 {
        256
    } else {
        512
    }
}

/// The representable number nearest to the square root of the whole number
/// `n`, for `n` below 256.
pub open spec fn root(n: nat) -> nat {
    if n == 0 {
        0
    } else {
        let u = root_spacing(n);
        let s = UNIT as nat / u;
        round_root(n * s * s) * u
    }
}

/// The rounded root stays on the side of a whole number `k` on which the
/// root lies.
pub proof fn lemma_root_keeps_side(n: nat, k: nat)
    requires
        n < 256,
    ensures
        n <= k * k ==> root(n) <= k * UNIT,
        n >= k * k ==> root(n) >= k * UNIT,
{
    if n == 0 {
        if k > 0 {
            assert(k * k > 0) by (nonlinear_arith)
                requires
                    k > 0,
            ;
        }
    } else {
        let u = root_spacing(n);
        let s = UNIT as nat / u;
        assert(s * u == UNIT);
        let m = n * s * s;
        lemma_round_root(m, k * s);
        if n <= k * k {
            assert(m <= (k * s) * (k * s)) by (nonlinear_arith)
                requires
                    m == n * s * s,
                    n <= k * k,
            ;
            assert(round_root(m) * u <= k * UNIT) by (nonlinear_arith)
                requires
                    round_root(m) <= k * s,
                    s * u == UNIT,
            ;
        }
        if n >= k * k {
            assert(m >= (k * s) * (k * s)) by (nonlinear_arith)
                requires
                    m == n * s * s,
                    n >= k * k,
            ;
            assert(round_root(m) * u >= k * UNIT) by (nonlinear_arith)
                requires
                    round_root(m) >= k * s,
                    s * u == UNIT,
            ;
        }
    }
}

/// Rounded roots keep the order of their arguments.
pub proof fn lemma_root_monotone(n1: nat, n2: nat)
    requires
        n1 <= n2 < 256,
    ensures
        root(n1) <= root(n2),
{
    if n1 == 0 {
    } else if root_spacing(n1) == root_spacing(n2) {
        let u = root_spacing(n1);
        let s = UNIT as nat / u;
        assert(n1 * s * s <= n2 * s * s) by (nonlinear_arith)
            requires
                n1 <= n2,
        ;
        lemma_round_root_monotone(n1 * s * s, n2 * s * s);
        assert(round_root(n1 * s * s) * u <= round_root(n2 * s * s) * u) by (nonlinear_arith)
            requires
                round_root(n1 * s * s) <= round_root(n2 * s * s),
        ;
    } else {
        let k: nat = if n2 < 16 {
            2
        } else if n2 < 64 {
            4
        } else {
            8
        };
        assert(k * k == 4 || k * k == 16 || k * k == 64);
        lemma_root_keeps_side(n1, k);
        lemma_root_keeps_side(n2, k);
    }
}

/// Computes the representable number nearest to the square root of `n`.
pub fn root_of(n: u64) -> (r: u64)
    requires
        n < 256,
    ensures
        r == root(n as nat),
        r <= 16 * UNIT,
{
    if n == 0 {
        return 0;
    }
    let u: u64 = if n < 4 {
        64
    } else if n < 16 {
        128
    } else if n < 64 {
        256
    } else {
        512
    };
    let s: u64 = UNIT / u;
    assert(n * s * s < 0x1_0000_0000_0000 && n * s < 0x1000_0000) by (nonlinear_arith)
        requires
            n < 4 && s == 0x80_0000 || n < 16 && s == 0x40_0000 || n < 64 && s == 0x20_0000 || n
                < 256 && s == 0x10_0000,
    ;
    let k: u64 = round_root_of(n * s * s);
    proof {
        lemma_root_keeps_side(n as nat, 16);
    }
    k * u
}

/// Every whole number below 256 is representable.
pub proof fn lemma_whole_representable(c: nat)
    requires
        c < 256,
    ensures
        representable((c * UNIT) as nat),
{
    let g: nat = (c * UNIT) as nat;
    lemma_spacing(g);
    let u = spacing(g);
    assert(u <= 8192);
    let t: nat = UNIT as nat / u;
    assert(UNIT == t * u);
    assert(g == (c * t) * u) by (nonlinear_arith)
        requires
            g == c * UNIT,
            UNIT == t * u,
    ;
    lemma_mod_multiples_basic((c * t) as int, u as int);
}

} // verus!
