//! Fan curves: points of temperature and duty, and what lies between them.

use crate::scale::{fraction_is_dropped, quotient};
use vstd::prelude::*;

verus! {

/// The duty on the line from `(t0, d0)` to `(t1, d1)`, fraction dropped.
pub open spec fn line(t0: int, d0: int, t1: int, d1: int, temp: int) -> int {
    if t1 == t0 {
        d1
    } else {
        d0 + quotient((d1 - d0) * (temp - t0), t1 - t0)
    }
}

/// Whether `temp` lies between point `k` and the next.
pub open spec fn spans(curve: Seq<(i32, i32)>, k: int, temp: int) -> bool {
    curve[k].0 <= temp <= curve[k + 1].0
}

/// The first point from `k` on whose segment spans `temp`; the last point where none does.
pub open spec fn segment(curve: Seq<(i32, i32)>, k: int, temp: int) -> int
    decreases curve.len() - k,
{
    if k + 1 >= curve.len() || spans(curve, k, temp) {
        k
    } else {
        segment(curve, k + 1, temp)
    }
}

/// The duty that a curve asks for at `temp`: the end points outside the curve, and the line
/// of the first segment that spans `temp` inside it. An empty curve asks for nothing.
pub open spec fn duty_at(curve: Seq<(i32, i32)>, temp: int) -> int {
    if curve.len() == 0 {
        0
    } else if temp <= curve[0].0 {
        curve[0].1 as int
    } else if temp >= curve.last().0 {
        curve.last().1 as int
    } else {
        let k = segment(curve, 0, temp);
        if k + 1 >= curve.len() {
            curve.last().1 as int
        } else {
            line(
                curve[k].0 as int,
                curve[k].1 as int,
                curve[k + 1].0 as int,
                curve[k + 1].1 as int,
                temp,
            )
        }
    }
}

proof fn lemma_line_between(t0: int, d0: int, t1: int, d1: int, temp: int)
    requires
        t0 <= temp <= t1,
    ensures
        d0 <= d1 ==> d0 <= line(t0, d0, t1, d1, temp) <= d1,
        d1 <= d0 ==> d1 <= line(t0, d0, t1, d1, temp) <= d0,
{
    if t1 != t0 {
        let a = (d1 - d0) * (temp - t0);
        let w = t1 - t0;
        let x = temp - t0;
        let d = d1 - d0;
        if d >= 0 {
            assert(0 <= d * x <= d * w) by (nonlinear_arith)
                requires
                    d >= 0,
                    0 <= x <= w,
            ;
            assert(0 <= a / w <= d) by (nonlinear_arith)
                requires
                    0 <= a <= d * w,
                    w > 0,
            ;
        }
        if d <= 0 {
            assert(0 <= -(d * x) <= (-d) * w) by (nonlinear_arith)
                requires
                    d <= 0,
                    0 <= x <= w,
            ;
            assert(0 <= (-a) / w <= -d) by (nonlinear_arith)
                requires
                    0 <= -a <= (-d) * w,
                    w > 0,
            ;
        }
    }
}

proof fn lemma_segment(curve: Seq<(i32, i32)>, k: int, temp: int)
    requires
        0 <= k < curve.len(),
    ensures
        k <= segment(curve, k, temp) < curve.len(),
        segment(curve, k, temp) + 1 < curve.len() ==> spans(
            curve,
            segment(curve, k, temp),
            temp,
        ),
        forall|j: int|
            k <= j < segment(curve, k, temp) ==> !#[trigger] spans(curve, j, temp),
    decreases curve.len() - k,
{
    if !(k + 1 >= curve.len() || spans(curve, k, temp)) {
        lemma_segment(curve, k + 1, temp);
    }
}

/// The duty that `curve` asks for at `temp`.
pub fn interp(curve: &[(i32, i32)], temp: i32) -> (r: i32)
    ensures
        r == duty_at(curve@, temp as int),
{
    if curve.len() == 0 {
        return 0;
    }
    if temp <= curve[0].0 {
        return curve[0].1;
    }
    let last = curve[curve.len() - 1];
    if temp >= last.0 {
        return last.1;
    }
    let n = curve.len();
    let mut k: usize = 0;
    while k < n - 1
        invariant
            n == curve@.len(),
            k < n,
            last == curve@.last(),
            curve@[0].0 < temp < last.0,
            segment(curve@, 0, temp as int) == segment(curve@, k as int, temp as int),
        decreases curve@.len() - k,
    {
        let (t0, d0) = curve[k];
        let (t1, d1) = curve[k + 1];
        if temp >= t0 && temp <= t1 {
            assert(spans(curve@, k as int, temp as int));
            if t1 == t0 {
                return d1;
            }
            let x: i128 = temp as i128 - t0 as i128;
            let w: i128 = t1 as i128 - t0 as i128;
            let d: i128 = d1 as i128 - d0 as i128;
            assert(-0x1_0000_0000_0000_0000 <= d * x <= 0x1_0000_0000_0000_0000)
                by (nonlinear_arith)
                requires
                    -0x1_0000_0000 <= d <= 0x1_0000_0000,
                    0 <= x <= 0x1_0000_0000,
            ;
            let a: i128 = d * x;
            let q: i128 = if a >= 0 {
                a / w
            } else {
                -((-a) / w)
            };
            proof {
                lemma_line_between(t0 as int, d0 as int, t1 as int, d1 as int, temp as int);
                assert(q == quotient(a as int, w as int));
            }
            return (d0 as i128 + q) as i32;
        }
        k += 1;
    }
    last.1
}

/// Whether the temperatures of a curve never fall.
pub open spec fn ascending(curve: Seq<(i32, i32)>) -> bool {
    forall|i: int, j: int| 0 <= i <= j < curve.len() ==> curve[i].0 <= curve[j].0
}

/// Whether the temperatures of a curve rise from point to point.
pub open spec fn strictly_ascending(curve: Seq<(i32, i32)>) -> bool {
    forall|i: int, j: int| 0 <= i < j < curve.len() ==> curve[i].0 < curve[j].0
}

/// Whether the duties of a curve never fall.
pub open spec fn rising(curve: Seq<(i32, i32)>) -> bool {
    forall|i: int, j: int| 0 <= i <= j < curve.len() ==> curve[i].1 <= curve[j].1
}

/// Whether every duty of a curve lies between `lo` and `hi`.
pub open spec fn duties_within(curve: Seq<(i32, i32)>, lo: int, hi: int) -> bool {
    forall|i: int| 0 <= i < curve.len() ==> lo <= (#[trigger] curve[i]).1 <= hi
}

/// A curve never asks for less than its lowest or more than its highest duty.
pub proof fn duty_within(curve: Seq<(i32, i32)>, temp: int, lo: int, hi: int)
    requires
        curve.len() > 0,
        duties_within(curve, lo, hi),
    ensures
        lo <= duty_at(curve, temp) <= hi,
{
    if curve[0].0 < temp < curve.last().0 {
        lemma_segment(curve, 0, temp);
        let k = segment(curve, 0, temp);
        if k + 1 < curve.len() {
            let (t0, d0) = curve[k];
            let (t1, d1) = curve[k + 1];
            lemma_line_between(t0 as int, d0 as int, t1 as int, d1 as int, temp);
        }
    }
}

/// At the temperature of one of its points, a curve whose temperatures rise asks for the
/// duty of that point.
pub proof fn duty_at_point(curve: Seq<(i32, i32)>, i: int)
    requires
        0 <= i < curve.len(),
        strictly_ascending(curve),
    ensures
        duty_at(curve, curve[i].0 as int) == curve[i].1,
{
    let temp = curve[i].0 as int;
    if 0 < i < curve.len() - 1 {
        lemma_segment(curve, 0, temp);
        let k = segment(curve, 0, temp);
        assert(spans(curve, i - 1, temp));
        assert(k == i - 1);
        let (t0, d0) = curve[k];
        let (t1, d1) = curve[k + 1];
        let d = d1 as int - d0 as int;
        let w = t1 as int - t0 as int;
        assert(quotient(d * w, w) == d) by {
            if d >= 0 {
                assert((d * w) / w == d && d * w >= 0) by (nonlinear_arith)
                    requires
                        d >= 0,
                        w > 0,
                ;
            } else {
                assert((-(d * w)) / w == -d && d * w < 0) by (nonlinear_arith)
                    requires
                        d < 0,
                        w > 0,
                ;
            }
        }
    }
}

proof fn lemma_line_rises(t0: int, d0: int, t1: int, d1: int, a: int, b: int)
    requires
        t0 <= a <= b <= t1,
        d0 <= d1,
    ensures
        line(t0, d0, t1, d1, a) <= line(t0, d0, t1, d1, b),
{
    if t1 != t0 {
        let d = d1 - d0;
        let w = t1 - t0;
        let p = d * (a - t0);
        let q = d * (b - t0);
        assert(0 <= p <= q) by (nonlinear_arith)
            requires
                p == d * (a - t0),
                q == d * (b - t0),
                d >= 0,
                t0 <= a <= b,
        ;
        assert(p / w <= q / w) by (nonlinear_arith)
            requires
                p <= q,
                w > 0,
        ;
    }
}

/// Where neither the temperatures nor the duties of a curve fall, more heat never asks for
/// less fan.
pub proof fn duty_rises(curve: Seq<(i32, i32)>, a: int, b: int)
    requires
        ascending(curve),
        rising(curve),
        a <= b,
    ensures
        duty_at(curve, a) <= duty_at(curve, b),
{
    if curve.len() > 0 {
        let lo = curve[0].1 as int;
        let hi = curve.last().1 as int;
        assert(duties_within(curve, lo, hi));
        duty_within(curve, a, lo, hi);
        duty_within(curve, b, lo, hi);
        if curve[0].0 < a && b < curve.last().0 {
            lemma_segment(curve, 0, a);
            lemma_segment(curve, 0, b);
            let i = segment(curve, 0, a);
            let j = segment(curve, 0, b);
            lemma_segment_exists(curve, a);
            lemma_segment_exists(curve, b);
            if i == j {
                lemma_line_rises(
                    curve[i].0 as int,
                    curve[i].1 as int,
                    curve[i + 1].0 as int,
                    curve[i + 1].1 as int,
                    a,
                    b,
                );
            } else {
                lemma_line_between(
                    curve[i].0 as int,
                    curve[i].1 as int,
                    curve[i + 1].0 as int,
                    curve[i + 1].1 as int,
                    a,
                );
                lemma_line_between(
                    curve[j].0 as int,
                    curve[j].1 as int,
                    curve[j + 1].0 as int,
                    curve[j + 1].1 as int,
                    b,
                );
                if j < i {
                    // b would lie at or below point j + 1, hence below a.
                    assert(!spans(curve, j, a));
                    assert(a <= b <= curve[j + 1].0);
                    assert(a < curve[j].0);
                    lemma_climb(curve, a, j);
                }
            }
        }
    }
}

/// Inside an ascending curve some segment spans every temperature.
proof fn lemma_segment_exists(curve: Seq<(i32, i32)>, temp: int)
    requires
        ascending(curve),
        curve.len() > 0,
        curve[0].0 < temp < curve.last().0,
    ensures
        segment(curve, 0, temp) + 1 < curve.len(),
{
    lemma_segment(curve, 0, temp);
    if segment(curve, 0, temp) + 1 >= curve.len() {
        lemma_climb(curve, temp, curve.len() - 1);
    }
}

/// Where no segment up to point `n` spans `temp`, point `n` lies below it.
proof fn lemma_climb(curve: Seq<(i32, i32)>, temp: int, n: int)
    requires
        0 <= n < curve.len(),
        curve[0].0 < temp,
        forall|j: int| 0 <= j < n ==> !#[trigger] spans(curve, j, temp),
    ensures
        curve[n].0 < temp,
    decreases n,
{
    if n > 0 {
        lemma_climb(curve, temp, n - 1);
        assert(!spans(curve, n - 1, temp));
    }
}

/// The lowest duty that is safe at `temp`.
pub open spec fn floor_at(temp: int) -> int {
    if temp >= 90 {
        80
    } else if temp >= 85 {
        60
    } else if temp >= 80 {
        45
    } else if temp >= 75 {
        30
    } else {
        0
    }
}

/// Fan safety floor: the lowest duty in percent that the fan must run at, whatever a curve
/// or a manual override asks for.
pub fn safety_floor(temp: i32) -> (r: i32)
    ensures
        r == floor_at(temp as int),
{
    if temp >= 90 {
        80
    } else if temp >= 85 {
        60
    } else if temp >= 80 {
        45
    } else if temp >= 75 {
        30
    } else {
        0
    }
}

/// More heat never lowers the safety floor.
pub proof fn floor_rises(a: int, b: int)
    requires
        a <= b,
    ensures
        0 <= floor_at(a) <= floor_at(b) <= 100,
{
}

/// Outside its points a curve asks for the duty of the nearest end, and an empty curve asks for
/// nothing.
pub proof fn duty_beyond_ends(curve: Seq<(i32, i32)>, temp: int)
    ensures
        curve.len() == 0 ==> duty_at(curve, temp) == 0,
        curve.len() > 0 && temp <= curve[0].0 ==> duty_at(curve, temp) == curve[0].1,
        curve.len() > 0 && temp > curve[0].0 && temp >= curve[curve.len() - 1].0 ==> duty_at(
            curve,
            temp,
        ) == curve[curve.len() - 1].1,
{
}

/// `r` lies on the straight line from `(t0, d0)` to `(t1, d1)` at `temp`, with the fraction of
/// the step from `d0` dropped.
proof fn lemma_on_line(t0: int, d0: int, t1: int, d1: int, temp: int)
    requires
        t0 < t1,
        t0 <= temp <= t1,
    ensures
        d0 <= d1 ==> (line(t0, d0, t1, d1, temp) - d0) * (t1 - t0) <= (d1 - d0) * (temp - t0) < (
        line(t0, d0, t1, d1, temp) - d0 + 1) * (t1 - t0),
        d1 <= d0 ==> (d0 - line(t0, d0, t1, d1, temp)) * (t1 - t0) <= (d0 - d1) * (temp - t0) < (d0
            - line(t0, d0, t1, d1, temp) + 1) * (t1 - t0),
{
    let d = d1 - d0;
    let x = temp - t0;
    let w = t1 - t0;
    let q = quotient(d * x, w);
    fraction_is_dropped(d * x, w);
    if d >= 0 {
        assert(d * x >= 0) by (nonlinear_arith)
            requires
                d >= 0,
                x >= 0,
        ;
    }
    if d <= 0 {
        assert(d * x <= 0) by (nonlinear_arith)
            requires
                d <= 0,
                x >= 0,
        ;
        assert((d0 - d1) * x == -(d * x)) by (nonlinear_arith)
            requires
                d == d1 - d0,
        ;
        assert((-q) * w == -(q * w) && (-q + 1) * w == -((q - 1) * w)) by (nonlinear_arith);
        if d * x == 0 {
            assert(q == 0) by (nonlinear_arith)
                requires
                    q * w <= 0,
                    0 < (q + 1) * w,
                    w > 0,
                    0 <= q * w,
            ;
            assert((0 + 1) * w == w);
            assert(0 * w == 0);
        }
    }
}

/// Between two neighbouring points a curve asks for the duty on the straight line that joins
/// them, with the fraction of the step dropped. Where several pairs of neighbours enclose a
/// temperature, the first pair counts; of a pair at one temperature, the second point does.
pub proof fn duty_on_first_segment(curve: Seq<(i32, i32)>, k: int, temp: int)
    requires
        0 <= k < curve.len() - 1,
        curve[0].0 < temp < curve[curve.len() - 1].0,
        curve[k].0 <= temp <= curve[k + 1].0,
        forall|j: int|
            0 <= j < k ==> !((#[trigger] curve[j]).0 <= temp && temp <= curve[j + 1].0),
    ensures
        ({
            let (t0, d0) = (curve[k].0 as int, curve[k].1 as int);
            let (t1, d1) = (curve[k + 1].0 as int, curve[k + 1].1 as int);
            let r = duty_at(curve, temp);
            &&& t0 == t1 ==> r == d1
            &&& t0 < t1 && d0 <= d1 ==> (r - d0) * (t1 - t0) <= (d1 - d0) * (temp - t0) < (r - d0
                + 1) * (t1 - t0)
            &&& t0 < t1 && d1 <= d0 ==> (d0 - r) * (t1 - t0) <= (d0 - d1) * (temp - t0) < (d0 - r
                + 1) * (t1 - t0)
        }),
{
    lemma_segment(curve, 0, temp);
    let s = segment(curve, 0, temp);
    assert(spans(curve, k, temp));
    if s < k {
        let q = curve[s];
        assert(spans(curve, s, temp));
    }
    assert(s == k);
    if curve[k].0 < curve[k + 1].0 {
        lemma_on_line(
            curve[k].0 as int,
            curve[k].1 as int,
            curve[k + 1].0 as int,
            curve[k + 1].1 as int,
            temp,
        );
    }
}

/// Where the temperatures of a curve rise from point to point, the duty between any two
/// neighbours, both included, lies on the straight line that joins them, with the fraction of
/// the step dropped.
pub proof fn duty_is_linear(curve: Seq<(i32, i32)>, k: int, temp: int)
    requires
        forall|i: int, j: int| 0 <= i < j < curve.len() ==> curve[i].0 < curve[j].0,
        0 <= k < curve.len() - 1,
        curve[k].0 <= temp <= curve[k + 1].0,
    ensures
        ({
            let (t0, d0) = (curve[k].0 as int, curve[k].1 as int);
            let (t1, d1) = (curve[k + 1].0 as int, curve[k + 1].1 as int);
            let r = duty_at(curve, temp);
            &&& d0 <= d1 ==> (r - d0) * (t1 - t0) <= (d1 - d0) * (temp - t0) < (r - d0 + 1) * (t1
                - t0)
            &&& d1 <= d0 ==> (d0 - r) * (t1 - t0) <= (d0 - d1) * (temp - t0) < (d0 - r + 1) * (t1
                - t0)
            &&& temp == t0 ==> r == d0
            &&& temp == t1 ==> r == d1
        }),
{
    let (t0, d0) = (curve[k].0 as int, curve[k].1 as int);
    let (t1, d1) = (curve[k + 1].0 as int, curve[k + 1].1 as int);
    let w = t1 - t0;
    duty_at_point(curve, k);
    duty_at_point(curve, k + 1);
    if temp == t0 {
        assert((d1 - d0) * (temp - t0) == 0) by (nonlinear_arith)
            requires
                temp == t0,
        ;
        assert((d0 - d1) * (temp - t0) == 0) by (nonlinear_arith)
            requires
                temp == t0,
        ;
        assert(0 * w == 0 && 1 * w == w);
    } else if temp == t1 {
        assert((d1 - d0 + 1) * w == (d1 - d0) * w + w && (d0 - d1 + 1) * w == (d0 - d1) * w + w)
            by (nonlinear_arith);
    } else {
        if k > 0 {
            assert(curve[0].0 < curve[k].0);
        }
        if k + 1 < curve.len() - 1 {
            assert(curve[k + 1].0 < curve[curve.len() - 1].0);
        }
        assert forall|j: int| 0 <= j < k implies !((#[trigger] curve[j]).0 <= temp && temp
            <= curve[j + 1].0) by {
            if j + 1 < k {
                assert(curve[j + 1].0 < curve[k].0);
            }
        }
        duty_on_first_segment(curve, k, temp);
    }
}

/// Where no two neighbours enclose a temperature between the ends, the last duty is asked for.
pub proof fn duty_in_a_hole(curve: Seq<(i32, i32)>, temp: int)
    requires
        curve.len() > 0,
        curve[0].0 < temp < curve[curve.len() - 1].0,
        forall|j: int|
            0 <= j < curve.len() - 1 ==> !((#[trigger] curve[j]).0 <= temp && temp <= curve[j
                + 1].0),
    ensures
        duty_at(curve, temp) == curve[curve.len() - 1].1,
{
    lemma_segment(curve, 0, temp);
    let s = segment(curve, 0, temp);
    if s + 1 < curve.len() {
        let q = curve[s];
        assert(spans(curve, s, temp));
    }
}

/// The safety floor rises in steps: none below 75 degrees, then 30 percent, 45 from 80, 60 from
/// 85, and 80 from 90 degrees on.
pub proof fn floor_steps(temp: int)
    ensures
        temp < 75 <==> floor_at(temp) == 0,
        75 <= temp < 80 <==> floor_at(temp) == 30,
        80 <= temp < 85 <==> floor_at(temp) == 45,
        85 <= temp < 90 <==> floor_at(temp) == 60,
        90 <= temp <==> floor_at(temp) == 80,
{
}

} // verus!
