//! Dead-zone filtering and radial rescaling of raw analog-stick deflections.
//!
//! A raw deflection `(x, y)` whose magnitude lies inside the dead zone is
//! treated as rest and becomes `(0, 0)`; outside the dead zone the vector is
//! rescaled so that output magnitude grows from zero at the dead-zone edge
//! back up to the nominal full-deflection magnitude, preserving direction.
//! All arithmetic is exact integer arithmetic over the truncated integer
//! square root of the squared magnitude.

use vstd::prelude::*;

verus! {

/// Nominal full-deflection magnitude of the recentered raw stick range.
pub const ANALOG_MAX: u32 = 32768;

/// Dead-zone radius used for pointer motion derived from the left stick.
pub const STICK_DEAD_ZONE: u32 = 7680;

/// Truncated integer square root, defined by recursion on `n`.
pub open spec fn isqrt_spec(n: nat) -> nat
    decreases n,
{
    if n == 0 {
        0
    } else {
        let r = isqrt_spec((n - 1) as nat);
        if (r + 1) * (r + 1) <= n {
            r + 1
        } else {
            r
        }
    }
}

/// `isqrt_spec(n)` really is the truncated square root of `n`.
pub proof fn lemma_isqrt_bounds(n: nat)
    ensures
        isqrt_spec(n) * isqrt_spec(n) <= n,
        n < (isqrt_spec(n) + 1) * (isqrt_spec(n) + 1),
    decreases n,
{
    if n == 0 {
        assert(isqrt_spec(0) == 0);
        assert(isqrt_spec(n) * isqrt_spec(n) <= n);
        assert(n < (isqrt_spec(n) + 1) * (isqrt_spec(n) + 1)) by (nonlinear_arith)
            requires
                n == 0,
                isqrt_spec(n) == 0,
        ;
    } else {
        let r = isqrt_spec((n - 1) as nat);
        lemma_isqrt_bounds((n - 1) as nat);
        assert(r * r <= n - 1);
        assert(n - 1 < (r + 1) * (r + 1));
        if (r + 1) * (r + 1) <= n {
            assert(isqrt_spec(n) == r + 1);
            assert(n == (r + 1) * (r + 1));
            assert(n < (r + 1 + 1) * (r + 1 + 1)) by (nonlinear_arith)
                requires
                    n == (r + 1) * (r + 1),
            ;
            assert(isqrt_spec(n) * isqrt_spec(n) <= n);
            assert(n < (isqrt_spec(n) + 1) * (isqrt_spec(n) + 1));
        } else {
            assert(isqrt_spec(n) == r);
            assert(isqrt_spec(n) * isqrt_spec(n) <= n);
            assert(n < (isqrt_spec(n) + 1) * (isqrt_spec(n) + 1));
        }
    }
}

/// Any `r` with `r*r <= n < (r+1)*(r+1)` equals `isqrt_spec(n)`.
pub proof fn lemma_isqrt_unique(n: nat, r: nat)
    requires
        r * r <= n,
        n < (r + 1) * (r + 1),
    ensures
        r == isqrt_spec(n),
{
    let s = isqrt_spec(n);
    lemma_isqrt_bounds(n);
    if r < s {
        assert((r + 1) * (r + 1) <= s * s) by (nonlinear_arith)
            requires
                r + 1 <= s,
        ;
    }
    if s < r {
        assert((s + 1) * (s + 1) <= r * r) by (nonlinear_arith)
            requires
                s + 1 <= r,
        ;
    }
}

/// Truncated integer square root of `n`, by binary search.
pub fn isqrt64(n: u64) -> (r: u32)
    requires
        n < 0x4000_0000_0000_0000,
    ensures
        r == isqrt_spec(n as nat),
        r * r <= n,
        n < (r + 1) * (r + 1),
{
    let mut lo: u64 = 0;
    let mut hi: u64 = 0x8000_0000;
    assert(n < hi * hi) by (nonlinear_arith)
        requires
            n < 0x4000_0000_0000_0000,
            hi == 0x8000_0000u64,
    ;
    while lo + 1 < hi
        invariant
            lo < hi <= 0x8000_0000,
            lo * lo <= n,
            n < hi * hi,
        decreases hi - lo,
    {
        let mid: u64 = lo + (hi - lo) / 2;
        assert(lo < mid < hi);
        assert(mid * mid <= 0x4000_0000_0000_0000) by (nonlinear_arith)
            requires
                mid <= 0x8000_0000u64,
        ;
        if mid * mid <= n {
            lo = mid;
        } else {
            hi = mid;
        }
    }
    proof {
        lemma_isqrt_unique(n as nat, lo as nat);
    }
    lo as u32
}

/// Sign of an integer: -1, 0 or 1.
pub open spec fn sgn(v: int) -> int {
    if v > 0 {
        1
    } else if v < 0 {
        -1
    } else {
        0
    }
}

/// Absolute value of an integer.
pub open spec fn mag(v: int) -> int {
    if v >= 0 {
        v
    } else {
        -v
    }
}

/// Magnitude of one rescaled component, before the sign is reapplied:
/// `|a| * (m - dead) * maxm / (m * (maxm - dead))`, truncated.
pub open spec fn rescaled_component_mag(a: int, m: int, dead: int, maxm: int) -> int {
    (mag(a) * (m - dead) * maxm) / (m * (maxm - dead))
}

/// The dead-zone-and-rescale transform of a raw deflection `(x, y)`:
/// `(0, 0)` when the magnitude is below `dead`, otherwise each component
/// scaled by `(maxm / magnitude) * (magnitude - dead) / (maxm - dead)`,
/// truncated toward zero.
pub open spec fn rescale_spec(x: int, y: int, dead: int, maxm: int) -> (int, int) {
    let m = isqrt_spec((x * x + y * y) as nat) as int;
    if m < dead {
        (0, 0)
    } else {
        (
            sgn(x) * rescaled_component_mag(x, m, dead, maxm),
            sgn(y) * rescaled_component_mag(y, m, dead, maxm),
        )
    }
}

/// Deflections whose magnitude is inside the dead zone compare below it by
/// squares, and vice versa.
pub proof fn lemma_dead_zone_by_squares(x: int, y: int, dead: int)
    requires
        0 <= dead,
    ensures
        isqrt_spec((x * x + y * y) as nat) < dead <==> x * x + y * y < dead * dead,
{
    let n = (x * x + y * y) as nat;
    assert(x * x >= 0 && y * y >= 0) by (nonlinear_arith);
    let m = isqrt_spec(n);
    lemma_isqrt_bounds(n);
    if m < dead {
        assert((m + 1) * (m + 1) <= dead * dead) by (nonlinear_arith)
            requires
                0 <= m + 1 <= dead,
        ;
    }
    if x * x + y * y < dead * dead {
        if dead <= m {
            assert(dead * dead <= m * m) by (nonlinear_arith)
                requires
                    0 <= dead <= m,
            ;
        }
    }
}

proof fn lemma_div_bounded(num: int, den: int, k: int)
    requires
        0 <= num,
        0 < den,
        num <= k * den,
    ensures
        0 <= num / den <= k,
{
    vstd::arithmetic::div_mod::lemma_fundamental_div_mod(num, den);
    vstd::arithmetic::div_mod::lemma_mod_bound(num, den);
    assert(0 <= num / den && num / den <= k) by (nonlinear_arith)
        requires
            0 < den,
            num == den * (num / den) + (num % den),
            0 <= num % den < den,
            0 <= num,
            num <= k * den,
    ;
}

proof fn lemma_div_at_least_one(num: int, den: int)
    requires
        0 < den <= num,
    ensures
        1 <= num / den,
{
    vstd::arithmetic::div_mod::lemma_fundamental_div_mod(num, den);
    vstd::arithmetic::div_mod::lemma_mod_bound(num, den);
    assert(1 <= num / den) by (nonlinear_arith)
        requires
            0 < den <= num,
            num == den * (num / den) + (num % den),
            0 <= num % den < den,
    ;
}

/// Applies the dead-zone-and-rescale transform to one raw deflection.
///
/// A magnitude below `dead` is rest and yields `(0, 0)`; otherwise each
/// component is scaled by `(maxm / magnitude) * (magnitude - dead) /
/// (maxm - dead)`, truncated toward zero, which restores full-range output
/// just outside the dead zone while preserving the deflection's direction.
pub fn rescale(x: i32, y: i32, dead: u32, maxm: u32) -> (r: (i32, i32))
    requires
        0 < dead < maxm <= 0x8000,
        -0x8000 <= x <= 0x8000,
        -0x8000 <= y <= 0x8000,
    ensures
        r.0 == rescale_spec(x as int, y as int, dead as int, maxm as int).0,
        r.1 == rescale_spec(x as int, y as int, dead as int, maxm as int).1,
        x * x + y * y < dead * dead ==> r.0 == 0 && r.1 == 0,
        -0x4000_0000 <= r.0 <= 0x4000_0000,
        -0x4000_0000 <= r.1 <= 0x4000_0000,
{
    proof {
        lemma_dead_zone_by_squares(x as int, y as int, dead as int);
    }
    let xl: i64 = x as i64;
    let yl: i64 = y as i64;
    assert(0 <= xl * xl <= 0x4000_0000 && 0 <= yl * yl <= 0x4000_0000) by (nonlinear_arith)
        requires
            -0x8000 <= xl <= 0x8000,
            -0x8000 <= yl <= 0x8000,
    ;
    let s: u64 = (xl * xl + yl * yl) as u64;
    let m: u32 = isqrt64(s);
    assert(m <= 0xB505) by (nonlinear_arith)
        requires
            m * m <= 0x8000_0000,
    ;
    if m < dead {
        (0i32, 0i32)
    } else {
        let ml: u64 = m as u64;
        let axv: u64 = ax_of(x);
        let ayv: u64 = ax_of(y);
        let md: u64 = (m - dead) as u64;
        let mxm: u64 = maxm as u64;
        let spread: u64 = (maxm - dead) as u64;
        assert(axv * md <= 0x5A82_8000 && ayv * md <= 0x5A82_8000) by (nonlinear_arith)
            requires
                axv <= 0x8000,
                ayv <= 0x8000,
                md <= 0xB505,
        ;
        assert(axv * md * mxm <= 0x2D41_4000_0000 && ayv * md * mxm <= 0x2D41_4000_0000)
            by (nonlinear_arith)
            requires
                axv * md <= 0x5A82_8000,
                ayv * md <= 0x5A82_8000,
                mxm <= 0x8000,
        ;
        assert(0 < ml * spread < 0x8000_0000) by (nonlinear_arith)
            requires
                0 < ml <= 0xB505,
                0 < spread <= 0x8000,
        ;
        let numx: u64 = axv * md * mxm;
        let numy: u64 = ayv * md * mxm;
        let den: u64 = ml * spread;
        proof {
            lemma_rescale_num_bound(axv as int, m as int, dead as int, maxm as int);
            lemma_rescale_num_bound(ayv as int, m as int, dead as int, maxm as int);
            lemma_div_bounded(numx as int, den as int, 0x4000_0000);
            lemma_div_bounded(numy as int, den as int, 0x4000_0000);
        }
        let qx: u32 = (numx / den) as u32;
        let qy: u32 = (numy / den) as u32;
        let rx: i32 = if x < 0 {
            -(qx as i32)
        } else {
            qx as i32
        };
        let ry: i32 = if y < 0 {
            -(qy as i32)
        } else {
            qy as i32
        };
        proof {
            if x == 0 {
                assert(numx == 0) by (nonlinear_arith)
                    requires
                        axv == 0,
                        numx == axv * md * mxm,
                ;
                vstd::arithmetic::div_mod::lemma_basic_div(0, den as int);
            }
            if y == 0 {
                assert(numy == 0) by (nonlinear_arith)
                    requires
                        ayv == 0,
                        numy == ayv * md * mxm,
                ;
                vstd::arithmetic::div_mod::lemma_basic_div(0, den as int);
            }
        }
        (rx, ry)
    }
}

/// The scaled numerator stays far below the numeric range of the division.
proof fn lemma_rescale_num_bound(a: int, m: int, dead: int, maxm: int)
    requires
        0 <= a <= 0x8000,
        0 < dead <= m <= 0xB505,
        dead < maxm <= 0x8000,
    ensures
        0 <= a * (m - dead) * maxm,
        a * (m - dead) * maxm <= 0x4000_0000 * (m * (maxm - dead)),
{
    assert(0 <= a * (m - dead) * maxm) by (nonlinear_arith)
        requires
            0 <= a,
            0 <= m - dead,
            0 < maxm,
    ;
    // a * (m - dead) * maxm <= a * maxm * m <= 0x4000_0000 * m
    //                       <= 0x4000_0000 * (m * (maxm - dead))
    assert(a * (m - dead) * maxm <= 0x4000_0000 * (m * (maxm - dead))) by (nonlinear_arith)
        requires
            0 <= a <= 0x8000,
            0 < dead <= m,
            dead < maxm <= 0x8000,
    ;
}

/// Law: outside the dead zone (with two units of margin, below which integer
/// truncation can round both components to zero) and strictly inside full
/// deflection, the rescaled vector has magnitude strictly between zero and
/// the nominal maximum, and neither component reverses its direction.
/// Magnitudes are compared through their squares, which is exact.
pub proof fn lemma_rescale_in_range(x: int, y: int, dead: int, maxm: int)
    requires
        0 < dead < maxm,
        (dead + 2) * (dead + 2) <= x * x + y * y,
        x * x + y * y < maxm * maxm,
    ensures
        ({
            let (rx, ry) = rescale_spec(x, y, dead, maxm);
            &&& 0 < rx * rx + ry * ry
            &&& rx * rx + ry * ry < maxm * maxm
            &&& rx * x >= 0
            &&& ry * y >= 0
        }),
{
    let s = x * x + y * y;
    assert(x * x >= 0 && y * y >= 0) by (nonlinear_arith);
    let m = isqrt_spec(s as nat) as int;
    lemma_isqrt_bounds(s as nat);
    assert(m * m <= s < (m + 1) * (m + 1));
    assert(dead + 2 <= m) by (nonlinear_arith)
        requires
            (dead + 2) * (dead + 2) < (m + 1) * (m + 1),
            dead + 2 >= 0,
            m >= 0,
    ;
    assert(m < maxm) by (nonlinear_arith)
        requires
            m * m < maxm * maxm,
            m >= 0,
            maxm >= 0,
    ;
    let den = m * (maxm - dead);
    assert(0 < den) by (nonlinear_arith)
        requires
            0 < m,
            0 < maxm - dead,
            den == m * (maxm - dead),
    ;
    assert(mag(x) * mag(x) == x * x && mag(y) * mag(y) == y * y) by (nonlinear_arith);
    let numx = mag(x) * (m - dead) * maxm;
    let numy = mag(y) * (m - dead) * maxm;
    let qx = numx / den;
    let qy = numy / den;
    // The scale factor is below one, so each component's magnitude shrinks.
    assert(numx <= mag(x) * den && numy <= mag(y) * den) by (nonlinear_arith)
        requires
            0 < dead,
            dead <= m <= maxm,
            numx == mag(x) * (m - dead) * maxm,
            numy == mag(y) * (m - dead) * maxm,
            den == m * (maxm - dead),
            mag(x) >= 0,
            mag(y) >= 0,
    ;
    assert(numx >= 0 && numy >= 0) by (nonlinear_arith)
        requires
            numx == mag(x) * (m - dead) * maxm,
            numy == mag(y) * (m - dead) * maxm,
            mag(x) >= 0,
            mag(y) >= 0,
            m - dead >= 0,
            maxm > 0,
    ;
    lemma_div_bounded(numx, den, mag(x));
    lemma_div_bounded(numy, den, mag(y));
    let rx = sgn(x) * qx;
    let ry = sgn(y) * qy;
    assert(rx * rx == qx * qx && ry * ry == qy * qy) by (nonlinear_arith)
        requires
            rx == sgn(x) * qx,
            ry == sgn(y) * qy,
            -1 <= sgn(x) <= 1,
            -1 <= sgn(y) <= 1,
            qx == 0 || sgn(x) != 0,
            qy == 0 || sgn(y) != 0,
    ;
    assert(qx * qx <= x * x && qy * qy <= y * y) by (nonlinear_arith)
        requires
            0 <= qx <= mag(x),
            0 <= qy <= mag(y),
            mag(x) * mag(x) == x * x,
            mag(y) * mag(y) == y * y,
    ;
    // The larger component survives truncation: its scaled magnitude is at
    // least one once the magnitude clears the dead zone by two units.
    let big = if mag(x) >= mag(y) {
        mag(x)
    } else {
        mag(y)
    };
    assert(s <= 2 * (big * big)) by (nonlinear_arith)
        requires
            s == x * x + y * y,
            mag(x) * mag(x) == x * x,
            mag(y) * mag(y) == y * y,
            mag(x) <= big,
            mag(y) <= big,
            0 <= mag(x),
            0 <= mag(y),
    ;
    assert(s >= 9) by (nonlinear_arith)
        requires
            s >= (dead + 2) * (dead + 2),
            dead + 2 >= 3,
    ;
    assert(big >= 1) by (nonlinear_arith)
        requires
            s <= 2 * (big * big),
            s >= 9,
            big >= 0,
    ;
    assert(m < 2 * big) by (nonlinear_arith)
        requires
            m * m <= s,
            s <= 2 * (big * big),
            m >= 0,
            big >= 1,
    ;
    let numb = big * (m - dead) * maxm;
    assert(den < numb) by (nonlinear_arith)
        requires
            numb == big * (m - dead) * maxm,
            den == m * (maxm - dead),
            m - dead >= 2,
            m < 2 * big,
            0 < maxm,
            0 < dead,
            0 < m,
    ;
    lemma_div_at_least_one(numb, den);
    assert(qx >= 1 || qy >= 1);
    assert(rx * rx + ry * ry > 0) by (nonlinear_arith)
        requires
            rx * rx == qx * qx,
            ry * ry == qy * qy,
            qx >= 0,
            qy >= 0,
            qx >= 1 || qy >= 1,
    ;
    assert(rx * x >= 0) by (nonlinear_arith)
        requires
            rx == sgn(x) * qx,
            qx >= 0,
            sgn(x) == if x > 0 { 1int } else if x < 0 { -1int } else { 0int },
    ;
    assert(ry * y >= 0) by (nonlinear_arith)
        requires
            ry == sgn(y) * qy,
            qy >= 0,
            sgn(y) == if y > 0 { 1int } else if y < 0 { -1int } else { 0int },
    ;
}

/// Law: outside the dead zone the rescale preserves the deflection's
/// direction up to truncation: the cross product of the input and output
/// vectors, which vanishes exactly for parallel vectors, is smaller than
/// `|x| + |y|` in magnitude, so the angular error shrinks as the deflection
/// grows.
pub proof fn lemma_rescale_preserves_direction(x: int, y: int, dead: int, maxm: int)
    requires
        0 < dead < maxm,
        dead * dead <= x * x + y * y,
    ensures
        ({
            let (rx, ry) = rescale_spec(x, y, dead, maxm);
            mag(rx * y - ry * x) < mag(x) + mag(y)
        }),
{
    let s = x * x + y * y;
    assert(x * x >= 0 && y * y >= 0) by (nonlinear_arith);
    let m = isqrt_spec(s as nat) as int;
    lemma_isqrt_bounds(s as nat);
    assert(dead <= m) by (nonlinear_arith)
        requires
            dead * dead < (m + 1) * (m + 1),
            dead >= 0,
            m >= 0,
    ;
    let den = m * (maxm - dead);
    assert(0 < den) by (nonlinear_arith)
        requires
            0 < m,
            0 < maxm - dead,
            den == m * (maxm - dead),
    ;
    let ax = mag(x);
    let ay = mag(y);
    let sx = sgn(x);
    let sy = sgn(y);
    let numx = ax * (m - dead) * maxm;
    let numy = ay * (m - dead) * maxm;
    let qx = numx / den;
    let qy = numy / den;
    let remx = numx % den;
    let remy = numy % den;
    vstd::arithmetic::div_mod::lemma_fundamental_div_mod(numx, den);
    vstd::arithmetic::div_mod::lemma_fundamental_div_mod(numy, den);
    vstd::arithmetic::div_mod::lemma_mod_bound(numx, den);
    vstd::arithmetic::div_mod::lemma_mod_bound(numy, den);
    let rx = sx * qx;
    let ry = sy * qy;
    assert(sx * ax == x) by (nonlinear_arith)
        requires
            sx == (if x > 0 { 1int } else if x < 0 { -1int } else { 0int }),
            ax == (if x >= 0 { x } else { -x }),
    ;
    assert(sy * ay == y) by (nonlinear_arith)
        requires
            sy == (if y > 0 { 1int } else if y < 0 { -1int } else { 0int }),
            ay == (if y >= 0 { y } else { -y }),
    ;
    let scale = (m - dead) * maxm;
    assert(numx == ax * scale && numy == ay * scale) by (nonlinear_arith)
        requires
            numx == ax * (m - dead) * maxm,
            numy == ay * (m - dead) * maxm,
            scale == (m - dead) * maxm,
    ;
    // the exact cross product of input and output, scaled by the divisor,
    // consists only of the two truncation remainders
    let t = remy * ax - remx * ay;
    let u = qx * ay - qy * ax;
    assert(rx * y == (sx * sy) * (qx * ay)) by (nonlinear_arith)
        requires
            rx == sx * qx,
            y == sy * ay,
    ;
    assert(ry * x == (sx * sy) * (qy * ax)) by (nonlinear_arith)
        requires
            ry == sy * qy,
            x == sx * ax,
    ;
    assert(rx * y - ry * x == (sx * sy) * u) by (nonlinear_arith)
        requires
            rx * y == (sx * sy) * (qx * ay),
            ry * x == (sx * sy) * (qy * ax),
            u == qx * ay - qy * ax,
    ;
    assert(den * (rx * y - ry * x) == (sx * sy) * (den * u)) by (nonlinear_arith)
        requires
            rx * y - ry * x == (sx * sy) * u,
    ;
    assert(den * u == t) by (nonlinear_arith)
        requires
            u == qx * ay - qy * ax,
            den * qx == ax * scale - remx,
            den * qy == ay * scale - remy,
            t == remy * ax - remx * ay,
    ;
    assert(den * (rx * y - ry * x) == sx * sy * t) by (nonlinear_arith)
        requires
            den * (rx * y - ry * x) == (sx * sy) * (den * u),
            den * u == t,
    ;
    assert(ax + ay >= 1) by (nonlinear_arith)
        requires
            ax == (if x >= 0 { x } else { -x }),
            ay == (if y >= 0 { y } else { -y }),
            x * x + y * y >= dead * dead,
            dead >= 1,
    ;
    assert(-(den * (ax + ay)) < sx * sy * t && sx * sy * t < den * (ax + ay))
        by (nonlinear_arith)
        requires
            t == remy * ax - remx * ay,
            -1 <= sx <= 1,
            -1 <= sy <= 1,
            0 <= ax,
            0 <= ay,
            1 <= ax + ay,
            0 <= remx < den,
            0 <= remy < den,
    ;
    assert(mag(rx * y - ry * x) < ax + ay) by (nonlinear_arith)
        requires
            den * (rx * y - ry * x) == sx * sy * t,
            -(den * (ax + ay)) < sx * sy * t,
            sx * sy * t < den * (ax + ay),
            den > 0,
            mag(rx * y - ry * x) == (if rx * y - ry * x >= 0 {
                rx * y - ry * x
            } else {
                -(rx * y - ry * x)
            }),
    ;
}

/// Exec helper: the absolute value of a small signed component, as `u64`.
fn ax_of(v: i32) -> (r: u64)
    requires
        -0x8000 <= v <= 0x8000,
    ensures
        r == mag(v as int),
{
    if v < 0 {
        (-(v as i64)) as u64
    } else {
        v as u64
    }
}

} // verus!
