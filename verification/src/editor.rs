//! The fan-curve editor: points that are dragged, added and removed, and never unsafe.

use crate::curve::{ascending, floor_at, safety_floor};
use crate::scale::{clamp, clamped};
use vstd::prelude::*;

verus! {

/// `s` with `p` behind the last point that is not hotter.
pub open spec fn slotted(s: Seq<(i32, i32)>, p: (i32, i32)) -> Seq<(i32, i32)>
    decreases s.len(),
{
    if s.len() == 0 || s.last().0 <= p.0 {
        s.push(p)
    } else {
        slotted(s.drop_last(), p).push(s.last())
    }
}

/// The points by temperature; those of one temperature stay in their order.
pub open spec fn by_temp(s: Seq<(i32, i32)>) -> Seq<(i32, i32)>
    decreases s.len(),
{
    if s.len() == 0 {
        s
    } else {
        slotted(by_temp(s.drop_last()), s.last())
    }
}

/// The larger of a duty and the safety floor.
pub open spec fn at_least_floor(d: int, t: int) -> int {
    if d >= floor_at(t) {
        d
    } else {
        floor_at(t)
    }
}

/// A point forced into the plot and above the safety floor.
pub open spec fn safe_point(p: (i32, i32)) -> (i32, i32) {
    let t = clamped(p.0 as int, 0, 100);
    (t as i32, at_least_floor(clamped(p.1 as int, 0, 100), t) as i32)
}

/// The points by temperature, each forced into the plot and above the safety floor.
pub open spec fn tidied(s: Seq<(i32, i32)>) -> Seq<(i32, i32)> {
    by_temp(s).map_values(|p: (i32, i32)| safe_point(p))
}

/// Whether every point lies in the plot and not below the safety floor.
pub open spec fn safe_points(s: Seq<(i32, i32)>) -> bool {
    forall|i: int|
        0 <= i < s.len() ==> 0 <= (#[trigger] s[i]).0 <= 100 && floor_at(s[i].0 as int) <= s[i].1
            <= 100
}

proof fn lemma_slotted_at(s: Seq<(i32, i32)>, p: (i32, i32), j: int)
    requires
        0 <= j <= s.len(),
        forall|i: int| j <= i < s.len() ==> (#[trigger] s[i]).0 > p.0,
        j > 0 ==> s[j - 1].0 <= p.0,
    ensures
        slotted(s, p) == s.insert(j, p),
    decreases s.len(),
{
    if j < s.len() {
        let t = s.drop_last();
        assert forall|i: int| j <= i < t.len() implies (#[trigger] t[i]).0 > p.0 by {
            assert(t[i] == s[i]);
        }
        assert(s[s.len() - 1].0 > p.0);
        lemma_slotted_at(t, p, j);
        assert(s.insert(j, p) == t.insert(j, p).push(s.last()));
    } else {
        assert(s.insert(j, p) == s.push(p));
    }
}

/// Sorts the points by temperature and forces each into the plot and above the safety floor.
pub fn sorted_clamped(pts: &Vec<(i32, i32)>) -> (r: Vec<(i32, i32)>)
    ensures
        r@ == tidied(pts@),
{
    let mut r: Vec<(i32, i32)> = Vec::new();
    assert(pts@.take(0) == Seq::<(i32, i32)>::empty());
    for i in 0..pts.len()
        invariant
            r@ == by_temp(pts@.take(i as int)),
            r@.len() == i,
    {
        let p = pts[i];
        let mut j: usize = r.len();
        while j > 0 && r[j - 1].0 > p.0
            invariant
                j <= r@.len(),
                forall|k: int| j <= k < r@.len() ==> (#[trigger] r@[k]).0 > p.0,
            decreases j,
        {
            j -= 1;
        }
        proof {
            lemma_slotted_at(r@, p, j as int);
            assert(pts@.take(i + 1).drop_last() == pts@.take(i as int));
        }
        r.insert(j, p);
    }
    assert(pts@.take(pts@.len() as int) == pts@);
    let ghost sorted = r@;
    let n = r.len();
    for i in 0..n
        invariant
            n == r@.len(),
            n == sorted.len(),
            forall|k: int| 0 <= k < i ==> r@[k] == safe_point(sorted[k]),
            forall|k: int| i <= k < r@.len() ==> r@[k] == sorted[k],
    {
        let (t, d) = r[i];
        let t = clamp(t, 0, 100);
        r.set(i, (t, above_floor(clamp(d, 0, 100), t)));
    }
    assert(r@ == sorted.map_values(|p: (i32, i32)| safe_point(p)));
    r
}

fn above_floor(d: i32, t: i32) -> (r: i32)
    ensures
        r == at_least_floor(d as int, t as int),
{
    let f = safety_floor(t);
    if d >= f {
        d
    } else {
        f
    }
}

/// The curve that an editor starts from where it is given none.
pub open spec fn starter() -> Seq<(i32, i32)> {
    seq![(25, 0), (60, 0), (80, 60), (100, 100)]
}

/// The lowest temperature that point `i` may be dragged to.
pub open spec fn drag_lo(s: Seq<(i32, i32)>, i: int) -> int {
    if i > 0 {
        s[i - 1].0 + 1
    } else {
        0
    }
}

/// The highest temperature that point `i` may be dragged to.
pub open spec fn drag_hi(s: Seq<(i32, i32)>, i: int) -> int {
    if i + 1 < s.len() {
        s[i + 1].0 - 1
    } else {
        100
    }
}

/// Where point `i` goes when it is dragged to `(t, d)`: between its neighbours, where there
/// is room, and not below the safety floor.
pub open spec fn dragged(s: Seq<(i32, i32)>, i: int, t: int, d: int) -> (int, int) {
    let lo = drag_lo(s, i);
    let hi = drag_hi(s, i);
    let t = if lo <= hi {
        clamped(t, lo, hi)
    } else {
        t
    };
    (t, at_least_floor(d, t))
}

/// A curve that is being edited. Its points always lie in the plot and not below the safety
/// floor.
pub struct Editor {
    points: Vec<(i32, i32)>,
}

impl Editor {
    /// The points as they stand.
    pub closed spec fn pts(&self) -> Seq<(i32, i32)> {
        self.points@
    }

    #[verifier::type_invariant]
    spec fn safe(self) -> bool {
        safe_points(self.points@)
    }

    /// Starts to edit a curve; a mild one where it has no points.
    pub fn open(curve: &Vec<(i32, i32)>) -> (e: Self)
        ensures
            safe_points(e.pts()),
            e.pts() == tidied(
                if curve@.len() == 0 {
                    starter()
                } else {
                    curve@
                },
            ),
    {
        let points = if curve.len() == 0 {
            let c: Vec<(i32, i32)> = vec![(25, 0), (60, 0), (80, 60), (100, 100)];
            assert(c@ == starter());
            proof {
                tidied_is_safe(c@);
            }
            sorted_clamped(&c)
        } else {
            proof {
                tidied_is_safe(curve@);
            }
            sorted_clamped(curve)
        };
        Editor { points }
    }

    /// The points as they stand.
    pub fn points(&self) -> (r: &Vec<(i32, i32)>)
        ensures
            r@ == self.pts(),
            safe_points(r@),
    {
        proof {
            use_type_invariant(self);
        }
        &self.points
    }

    /// Drags point `i` to a place in the plot. There is nothing to drag behind the last point.
    pub fn drag(&mut self, i: usize, t: i32, d: i32)
        requires
            0 <= t <= 100,
            0 <= d <= 100,
        ensures
            safe_points(final(self).pts()),
            i < old(self).pts().len() ==> ({
                let p = dragged(old(self).pts(), i as int, t as int, d as int);
                final(self).pts() == old(self).pts().update(i as int, (p.0 as i32, p.1 as i32))
            }),
            i >= old(self).pts().len() ==> final(self).pts() == old(self).pts(),
    {
        proof {
            use_type_invariant(&*self);
        }
        let n = self.points.len();
        if i >= n {
            return;
        }
        let lo = if i > 0 {
            self.points[i - 1].0 + 1
        } else {
            0
        };
        let hi = if i < n - 1 {
            self.points[i + 1].0 - 1
        } else {
            100
        };
        let t = if lo <= hi {
            clamp(t, lo, hi)
        } else {
            t
        };
        let mut points: Vec<(i32, i32)> = Vec::new();
        std::mem::swap(&mut points, &mut self.points);
        points.set(i, (t, above_floor(d, t)));
        assert(safe_points(points@));
        self.points = points;
    }

    /// Adds a point.
    pub fn put(&mut self, t: i32, d: i32)
        ensures
            safe_points(final(self).pts()),
            final(self).pts() == tidied(old(self).pts().push((t, d))),
    {
        let mut points: Vec<(i32, i32)> = Vec::new();
        std::mem::swap(&mut points, &mut self.points);
        points.push((t, d));
        proof {
            tidied_is_safe(points@);
        }
        self.points = sorted_clamped(&points);
    }

    /// Removes point `i`, unless it is one of the last two.
    pub fn remove(&mut self, i: usize)
        ensures
            safe_points(final(self).pts()),
            final(self).pts() == if i < old(self).pts().len() && old(self).pts().len() > 2 {
                old(self).pts().remove(i as int)
            } else {
                old(self).pts()
            },
    {
        proof {
            use_type_invariant(&*self);
        }
        if i < self.points.len() && self.points.len() > 2 {
            let mut points: Vec<(i32, i32)> = Vec::new();
            std::mem::swap(&mut points, &mut self.points);
            points.remove(i);
            self.points = points;
        }
    }

    /// A double click: removes the point that it hit, or adds one where it hit none. At least
    /// two points are kept.
    pub fn double_click(&mut self, hit: Option<usize>, t: i32, d: i32)
        ensures
            safe_points(final(self).pts()),
            final(self).pts() == match hit {
                Some(i) => if i < old(self).pts().len() && old(self).pts().len() > 2 {
                    old(self).pts().remove(i as int)
                } else {
                    old(self).pts()
                },
                None => tidied(old(self).pts().push((t, d))),
            },
            old(self).pts().len() >= 2 ==> final(self).pts().len() >= 2,
    {
        proof {
            tidied_is_safe(self.pts().push((t, d)));
        }
        match hit {
            Some(i) => self.remove(i),
            None => self.put(t, d),
        }
    }

    /// The curve to save.
    pub fn curve(&self) -> (r: Vec<(i32, i32)>)
        ensures
            r@ == tidied(self.pts()),
    {
        sorted_clamped(&self.points)
    }
}

proof fn lemma_slotted(s: Seq<(i32, i32)>, p: (i32, i32))
    requires
        ascending(s),
    ensures
        slotted(s, p).len() == s.len() + 1,
        ascending(slotted(s, p)),
        forall|t: i32|
            #![trigger slotted(s, p).filter(of_temp(t))]
            slotted(s, p).filter(of_temp(t)) == if p.0 == t {
                s.filter(of_temp(t)).push(p)
            } else {
                s.filter(of_temp(t))
            },
        forall|i: int|
            0 <= i < slotted(s, p).len() ==> s.contains(#[trigger] slotted(s, p)[i])
                || slotted(s, p)[i] == p,
    decreases s.len(),
{
    reveal(Seq::filter);
    let r = slotted(s, p);
    if s.len() == 0 || s.last().0 <= p.0 {
        assert(s.push(p).drop_last() == s);
        assert forall|i: int, j: int| 0 <= i <= j < r.len() implies r[i].0 <= r[j].0 by {
            if s.len() > 0 && i < s.len() {
                assert(s[i].0 <= s[s.len() - 1].0);
            }
        }
    } else {
        let t = s.drop_last();
        assert forall|i: int, j: int| 0 <= i <= j < t.len() implies t[i].0 <= t[j].0 by {
            assert(t[i] == s[i] && t[j] == s[j]);
        }
        lemma_slotted(t, p);
        let u = slotted(t, p);
        assert(u.push(s.last()).drop_last() == u);
        assert forall|i: int| 0 <= i < u.len() implies (#[trigger] u[i]).0 <= s.last().0 by {
            if t.contains(u[i]) {
                let k = choose|k: int| 0 <= k < t.len() && t[k] == u[i];
                assert(s[k].0 <= s[s.len() - 1].0);
            }
        }
        assert forall|i: int| 0 <= i < r.len() implies s.contains(#[trigger] r[i]) || r[i] == p by {
            if i < u.len() {
                assert(r[i] == u[i]);
                if t.contains(u[i]) {
                    let k = choose|k: int| 0 <= k < t.len() && t[k] == u[i];
                    assert(s[k] == r[i]);
                }
            } else {
                assert(r[i] == s[s.len() - 1]);
            }
        }
        assert forall|q: i32|
            #![trigger r.filter(of_temp(q))]
            r.filter(of_temp(q)) == if p.0 == q {
                s.filter(of_temp(q)).push(p)
            } else {
                s.filter(of_temp(q))
            } by {
            assert(u.filter(of_temp(q)) == if p.0 == q {
                t.filter(of_temp(q)).push(p)
            } else {
                t.filter(of_temp(q))
            });
        }
    }
}

/// Whether a point has that temperature.
pub open spec fn of_temp(t: i32) -> spec_fn((i32, i32)) -> bool {
    |p: (i32, i32)| p.0 == t
}

/// Sorting puts the points in order of temperature, and keeps those of each temperature with
/// their order: none is lost and none is added.
pub proof fn sorting_is_stable(s: Seq<(i32, i32)>, t: i32)
    ensures
        ascending(by_temp(s)),
        by_temp(s).len() == s.len(),
        by_temp(s).filter(of_temp(t)) == s.filter(of_temp(t)),
    decreases s.len(),
{
    reveal(Seq::filter);
    if s.len() > 0 {
        sorting_is_stable(s.drop_last(), t);
        lemma_slotted(by_temp(s.drop_last()), s.last());
        assert(slotted(by_temp(s.drop_last()), s.last()).filter(of_temp(t)) == by_temp(s).filter(
            of_temp(t),
        ));
    }
}

/// A tidied curve is safe and in order, and has as many points as before.
pub proof fn tidied_is_safe(s: Seq<(i32, i32)>)
    ensures
        safe_points(tidied(s)),
        ascending(tidied(s)),
        tidied(s).len() == s.len(),
{
    sorting_is_stable(s, 0);
    let b = by_temp(s);
    let r = tidied(s);
    assert forall|i: int, j: int| 0 <= i <= j < r.len() implies r[i].0 <= r[j].0 by {
        assert(b[i].0 <= b[j].0);
        assert(r[i] == safe_point(b[i]) && r[j] == safe_point(b[j]));
    }
    assert forall|i: int| 0 <= i < r.len() implies 0 <= (#[trigger] r[i]).0 <= 100 && floor_at(
        r[i].0 as int,
    ) <= r[i].1 <= 100 by {
        assert(r[i] == safe_point(b[i]));
    }
}

proof fn lemma_sorted_stays(s: Seq<(i32, i32)>)
    requires
        ascending(s),
    ensures
        by_temp(s) == s,
    decreases s.len(),
{
    if s.len() > 0 {
        let t = s.drop_last();
        assert forall|i: int, j: int| 0 <= i <= j < t.len() implies t[i].0 <= t[j].0 by {
            assert(t[i] == s[i] && t[j] == s[j]);
        }
        lemma_sorted_stays(t);
        if t.len() > 0 {
            assert(s[t.len() - 1].0 <= s[s.len() - 1].0);
        }
        assert(t.push(s.last()) == s);
    }
}

/// A curve that is safe and in order is saved as it stands.
pub proof fn safe_curve_is_kept(s: Seq<(i32, i32)>)
    requires
        safe_points(s),
        ascending(s),
    ensures
        tidied(s) == s,
{
    lemma_sorted_stays(s);
    assert forall|i: int| 0 <= i < s.len() implies safe_point(#[trigger] s[i]) == s[i] by {}
    assert(tidied(s) == s);
}

/// Tidying twice does no more than tidying once: opening a saved curve shows it as it was
/// saved.
pub proof fn tidying_twice(s: Seq<(i32, i32)>)
    ensures
        tidied(tidied(s)) == tidied(s),
{
    tidied_is_safe(s);
    safe_curve_is_kept(tidied(s));
}

/// Dragging a point keeps the points in order, where there is room between its neighbours.
pub proof fn dragging_keeps_order(s: Seq<(i32, i32)>, i: int, t: int, d: int)
    requires
        ascending(s),
        safe_points(s),
        0 <= i < s.len(),
        0 <= t <= 100,
        0 <= d <= 100,
        drag_lo(s, i) <= drag_hi(s, i),
    ensures
        ({
            let p = dragged(s, i, t, d);
            ascending(s.update(i, (p.0 as i32, p.1 as i32)))
        }),
{
    let p = dragged(s, i, t, d);
    let r = s.update(i, (p.0 as i32, p.1 as i32));
    assert forall|a: int, b: int| 0 <= a <= b < r.len() implies r[a].0 <= r[b].0 by {
        if a == i && b > i {
            assert(s[i + 1].0 <= s[b].0);
        } else if b == i && a < i {
            assert(s[a].0 <= s[i - 1].0);
        } else if a != i && b != i {
            assert(s[a].0 <= s[b].0);
        }
    }
}

/// A point that is dragged strictly between its neighbours lands exactly there, with the duty of
/// the pointer, or with the safety floor where the pointer is below it.
pub proof fn dragged_point_lands_at_pointer(s: Seq<(i32, i32)>, i: int, t: int, d: int)
    requires
        0 <= i < s.len(),
        0 <= t <= 100,
        i > 0 ==> s[i - 1].0 < t,
        i + 1 < s.len() ==> t < s[i + 1].0,
    ensures
        d >= floor_at(t) ==> dragged(s, i, t, d) == (t, d),
        d < floor_at(t) ==> dragged(s, i, t, d) == (t, floor_at(t)),
{
}

/// A point that is dragged anywhere goes to a temperature strictly between its neighbours, or
/// between the edges of the plot where it has none, and no such temperature is nearer to the
/// pointer. Its duty is that of the pointer, or the safety floor there where that is larger.
pub proof fn dragged_point_goes_nearest(s: Seq<(i32, i32)>, i: int, t: int, d: int, x: int)
    requires
        0 <= i < s.len(),
        i > 0 ==> s[i - 1].0 < x,
        i + 1 < s.len() ==> x < s[i + 1].0,
        i == 0 ==> 0 <= x,
        i + 1 == s.len() ==> x <= 100,
    ensures
        ({
            let p = dragged(s, i, t, d);
            &&& i > 0 ==> s[i - 1].0 < p.0
            &&& i + 1 < s.len() ==> p.0 < s[i + 1].0
            &&& i == 0 ==> 0 <= p.0
            &&& i + 1 == s.len() ==> p.0 <= 100
            &&& !(t <= x < p.0)
            &&& !(p.0 < x <= t)
            &&& p.1 >= d && p.1 >= floor_at(p.0)
            &&& p.1 == d || p.1 == floor_at(p.0)
        }),
{
}

/// Where no temperature is free between its neighbours, a point follows the pointer.
pub proof fn crowded_point_follows_pointer(s: Seq<(i32, i32)>, i: int, t: int, d: int)
    requires
        0 < i < s.len() - 1,
        s[i + 1].0 - s[i - 1].0 <= 1,
    ensures
        dragged(s, i, t, d).0 == t,
        dragged(s, i, t, d).1 >= d && dragged(s, i, t, d).1 >= floor_at(t),
        dragged(s, i, t, d).1 == d || dragged(s, i, t, d).1 == floor_at(t),
{
}

/// A point is moved no further than it must be to lie in the plot and not below the safety
/// floor: no temperature `x` and no duty `y` that are allowed lie nearer.
pub proof fn safe_point_is_nearest(p: (i32, i32), x: int, y: int)
    requires
        0 <= x <= 100,
        floor_at(safe_point(p).0 as int) <= y <= 100,
    ensures
        0 <= safe_point(p).0 <= 100,
        floor_at(safe_point(p).0 as int) <= safe_point(p).1 <= 100,
        !(p.0 <= x < safe_point(p).0),
        !(safe_point(p).0 < x <= p.0),
        !(p.1 <= y < safe_point(p).1),
        !(safe_point(p).1 < y <= p.1),
{
}

/// A tidied curve holds the points in order of temperature, those of one temperature in the
/// order they had, and each moved by itself into the plot and above the safety floor.
pub proof fn tidying_moves_each_point(s: Seq<(i32, i32)>, t: i32, i: int, j: int)
    requires
        0 <= i <= j < s.len(),
    ensures
        by_temp(s).len() == s.len(),
        by_temp(s)[i].0 <= by_temp(s)[j].0,
        by_temp(s).filter(|p: (i32, i32)| p.0 == t) == s.filter(|p: (i32, i32)| p.0 == t),
        tidied(s).len() == s.len(),
        tidied(s)[i].0 <= tidied(s)[j].0,
        tidied(s)[i] == safe_point(by_temp(s)[i]),
{
    sorting_is_stable(s, t);
    tidied_is_safe(s);
    assert(of_temp(t) =~= (|p: (i32, i32)| p.0 == t));
}

/// A point that is added stands in the curve, and so does every point that was there.
pub proof fn added_point_is_there(s: Seq<(i32, i32)>, p: (i32, i32), i: int)
    requires
        0 <= p.0 <= 100,
        floor_at(p.0 as int) <= p.1 <= 100,
        safe_points(s),
        0 <= i < s.len(),
    ensures
        tidied(s.push(p)).len() == s.len() + 1,
        tidied(s.push(p)).contains(p),
        tidied(s.push(p)).contains(s[i]),
{
    let u = s.push(p);
    lemma_sorted_holds(u, s.len() as int);
    lemma_sorted_holds(u, i);
    tidied_is_safe(u);
    let b = by_temp(u);
    let k = choose|k: int| 0 <= k < b.len() && b[k] == p;
    assert(tidied(u)[k] == safe_point(p));
    let m = choose|m: int| 0 <= m < b.len() && b[m] == s[i];
    assert(u[i] == s[i]);
    assert(tidied(u)[m] == safe_point(s[i]));
}

proof fn lemma_slotted_holds(s: Seq<(i32, i32)>, p: (i32, i32), i: int)
    ensures
        slotted(s, p).contains(p),
        0 <= i < s.len() ==> slotted(s, p).contains(s[i]),
    decreases s.len(),
{
    let r = slotted(s, p);
    if s.len() == 0 || s.last().0 <= p.0 {
        assert(r[s.len() as int] == p);
        if 0 <= i < s.len() {
            assert(r[i] == s[i]);
        }
    } else {
        let t = s.drop_last();
        let u = slotted(t, p);
        lemma_slotted_holds(t, p, i);
        let k = choose|k: int| 0 <= k < u.len() && u[k] == p;
        assert(r[k] == p);
        if 0 <= i < t.len() {
            assert(t[i] == s[i]);
            let m = choose|m: int| 0 <= m < u.len() && u[m] == s[i];
            assert(r[m] == s[i]);
        } else if i == t.len() {
            assert(r[u.len() as int] == s[i]);
        }
    }
}

proof fn lemma_sorted_holds(s: Seq<(i32, i32)>, i: int)
    requires
        0 <= i < s.len(),
    ensures
        by_temp(s).contains(s[i]),
    decreases s.len(),
{
    let t = s.drop_last();
    let b = by_temp(t);
    if i < t.len() {
        lemma_sorted_holds(t, i);
        assert(t[i] == s[i]);
        let k = choose|k: int| 0 <= k < b.len() && b[k] == s[i];
        lemma_slotted_holds(b, s.last(), k);
    } else {
        lemma_slotted_holds(b, s.last(), 0);
    }
}

/// The curve that an editor starts from is shown as it stands.
pub proof fn starter_is_safe(i: int, j: int)
    requires
        0 <= i < j < starter().len(),
    ensures
        starter()[i].0 < starter()[j].0,
        starter()[i].1 <= starter()[j].1,
        tidied(starter()) == starter(),
{
    safe_curve_is_kept(starter());
}

} // verus!
