//! Fan duty: percent and the EC's raw scale.

use vstd::prelude::*;

verus! {

/// Raw duty that stands for 100 %.
pub const FAN_MAX: i32 = 0xc8;

/// `v` forced into the range from `lo` to `hi`.
pub open spec fn clamped(v: int, lo: int, hi: int) -> int {
    if v < lo {
        lo
    } else if v > hi {
        hi
    } else {
        v
    }
}

/// Division that drops the fraction, whatever the sign.
pub open spec fn quotient(a: int, b: int) -> int
    recommends
        b > 0,
{
    if a >= 0 {
        a / b
    } else {
        -((-a) / b)
    }
}

/// The raw duty of a percentage, which is first forced into 0 to 100.
pub open spec fn raw_of_pct(p: int) -> int {
    clamped(p, 0, 100) * FAN_MAX / 100
}

/// The percentage of a raw duty, rounded to the nearest.
pub open spec fn pct_of_raw(r: int) -> int {
    quotient(r * 100 + FAN_MAX / 2, FAN_MAX as int)
}

/// `v` forced into the range from `lo` to `hi`.
pub fn clamp(v: i32, lo: i32, hi: i32) -> (r: i32)
    ensures
        r == clamped(v as int, lo as int, hi as int),
{
    if v < lo {
        lo
    } else if v > hi {
        hi
    } else {
        v
    }
}

/// The raw duty of a percentage.
pub fn pct_to_raw(p: i32) -> (r: i32)
    ensures
        r == raw_of_pct(p as int),
        0 <= r <= FAN_MAX,
{
    clamp(p, 0, 100) * FAN_MAX / 100
}

/// The percentage of a raw duty.
pub fn raw_to_pct(r: i32) -> (p: i32)
    ensures
        p == pct_of_raw(r as int),
{
    let n: i64 = r as i64 * 100 + 100;
    if n >= 0 {
        (n / 200) as i32
    } else {
        (-((-n) / 200)) as i32
    }
}

/// More percent never means less raw duty.
pub proof fn raw_monotone(p: int, q: int)
    requires
        p <= q,
    ensures
        raw_of_pct(p) <= raw_of_pct(q),
{
}

/// More raw duty never means less percent.
pub proof fn pct_monotone(r: int, s: int)
    requires
        r <= s,
    ensures
        pct_of_raw(r) <= pct_of_raw(s),
{
}

/// A percentage comes back from the raw scale unchanged.
pub proof fn scaling_round_trip(p: int)
    requires
        0 <= p <= 100,
    ensures
        pct_of_raw(raw_of_pct(p)) == p,
{
}

/// A value forced into a range lies in it, and no value of the range lies between the two: it is
/// the nearest.
pub proof fn clamping_is_nearest(v: int, lo: int, hi: int, x: int)
    requires
        lo <= x <= hi,
    ensures
        lo <= clamped(v, lo, hi) <= hi,
        !(v <= x < clamped(v, lo, hi)),
        !(clamped(v, lo, hi) < x <= v),
{
}

/// A quotient is the exact one with its fraction dropped: towards zero, by less than one.
pub proof fn fraction_is_dropped(a: int, b: int)
    requires
        b > 0,
    ensures
        a >= 0 ==> 0 <= quotient(a, b) * b <= a < (quotient(a, b) + 1) * b,
        a < 0 ==> (quotient(a, b) - 1) * b < a <= quotient(a, b) * b <= 0,
{
    let n = if a >= 0 {
        a
    } else {
        -a
    };
    let q = n / b;
    assert(0 <= q * b <= n < (q + 1) * b) by (nonlinear_arith)
        requires
            q == n / b,
            b > 0,
            n >= 0,
    ;
    assert((-q) * b == -(q * b) && (-q - 1) * b == -((q + 1) * b)) by (nonlinear_arith);
}

/// The raw duty is proportional to the percentage: two steps a point, 0xc8 at 100 percent.
/// Percentages outside 0 to 100 count as the nearest inside.
pub proof fn raw_is_proportional(p: int)
    ensures
        0 <= p <= 100 ==> raw_of_pct(p) == 2 * p && raw_of_pct(p) * 100 == p * FAN_MAX,
        p < 0 ==> raw_of_pct(p) == 0,
        p > 100 ==> raw_of_pct(p) == 0xc8,
        FAN_MAX == 0xc8,
{
}

/// The percentage of a raw duty is within half a point of the exact one; between two of them a
/// duty goes up.
pub proof fn pct_is_nearest(r: int)
    ensures
        r >= 0 ==> 2 * pct_of_raw(r) - 1 <= r <= 2 * pct_of_raw(r),
        r < 0 ==> 2 * pct_of_raw(r) - 2 <= r <= 2 * pct_of_raw(r) - 1,
        r >= 0 ==> -FAN_MAX / 2 <= pct_of_raw(r) * FAN_MAX - r * 100 <= FAN_MAX / 2,
{
    fraction_is_dropped(r * 100 + 100, 200);
}

} // verus!
