//! The control loop: from temperatures to a fan duty.
//!
//! The curve follows a smoothed temperature and small changes of duty are held back, so that
//! the fan settles instead of chasing every degree of sensor noise. The safety floor follows
//! the temperature as it was read, so that real heat is answered at once.

use crate::curve::{
    ascending, duties_within, duty_at, duty_rises, duty_within, floor_at, interp, rising,
    safety_floor,
};
use crate::device::{percent, EcBackend, EcError, TuxedoIo};
use crate::ioctl::{R_UW_FANSPEED, R_UW_FANSPEED2, R_UW_FAN_TEMP, R_UW_FAN_TEMP2, R_UW_MODE};
use crate::scale::{clamp, clamped, pct_of_raw};
use vstd::prelude::*;

verus! {

/// How the loop settles.
#[derive(Clone, Copy, Debug, PartialEq, Eq, Structural)]
pub struct Tuning {
    /// Share of the newest temperature in the smoothed one, in percent from 1 to 100.
    pub weight: i32,
    /// Change of duty, in percent points, up to which the duty is held.
    pub deadband: i32,
}

impl Tuning {
    /// The tuning of the daemon.
    pub fn steady() -> (r: Tuning)
        ensures
            r == (Tuning { weight: 30, deadband: 4 }),
    {
        Tuning { weight: 30, deadband: 4 }
    }

    /// No smoothing and no holding: the fan follows the curve to the degree.
    pub fn direct() -> (r: Tuning)
        ensures
            r == (Tuning { weight: 100, deadband: 0 }),
    {
        Tuning { weight: 100, deadband: 0 }
    }
}

/// The larger of two numbers.
pub open spec fn max(a: int, b: int) -> int {
    if a >= b {
        a
    } else {
        b
    }
}

/// The smaller of two numbers.
pub open spec fn min(a: int, b: int) -> int {
    if a <= b {
        a
    } else {
        b
    }
}

/// Exponential moving average of the temperature, in thousandths of a degree.
pub open spec fn smoothed(prev: Option<int>, temp: int, weight: int) -> int {
    let w = clamped(weight, 1, 100);
    match prev {
        None => temp * 1000,
        Some(s) => (w * (temp * 1000) + (100 - w) * s) / 100,
    }
}

/// Thousandths of a degree, rounded to the nearest degree.
pub open spec fn degrees(s: int) -> int {
    (s + 500) / 1000
}

/// What the curve asks for at `temp`. Where that is less than the fan runs at, the curve is
/// read `hyst` degrees hotter, so that the fan slows down late.
pub open spec fn wanted(curve: Seq<(i32, i32)>, hyst: int, temp: int, commanded: int) -> int {
    let up = duty_at(curve, temp);
    if up >= max(commanded, 0) {
        up
    } else {
        min(duty_at(curve, temp + hyst), max(commanded, 0))
    }
}

/// The duty that is kept where the wanted one is close to it.
pub open spec fn held(wanted: int, commanded: int, deadband: int) -> int {
    if commanded >= 0 && -deadband <= wanted - commanded <= deadband {
        commanded
    } else {
        wanted
    }
}

/// The duty to drive: a manual override or else the held one, but never below the safety
/// floor of the temperature as it was read.
pub open spec fn driven(manual: Option<i32>, held: int, temp: int) -> int {
    max(
        match manual {
            Some(m) => m as int,
            None => held,
        },
        floor_at(temp),
    )
}

/// What the loop remembers from tick to tick.
pub struct ControlState {
    smooth: Option<i64>,
    commanded: i32,
}

/// What a [`ControlState`] holds.
pub struct ControlView {
    /// Smoothed temperature in thousandths of a degree; nothing before the first tick.
    pub smooth: Option<int>,
    /// The duty of the last tick; -1 before the first.
    pub commanded: int,
}

impl View for ControlState {
    type V = ControlView;

    closed spec fn view(&self) -> ControlView {
        ControlView {
            smooth: match self.smooth {
                Some(s) => Some(s as int),
                None => None,
            },
            commanded: self.commanded as int,
        }
    }
}

/// What a tick decided.
#[derive(Clone, Copy, Debug, PartialEq, Eq, Structural)]
pub struct Decision {
    /// What the curve asks for.
    pub wanted: i32,
    /// What the fan is driven at.
    pub target: i32,
}

impl ControlView {
    /// The smoothed temperature after one more reading.
    pub open spec fn next_smooth(self, tuning: Tuning, temp: int) -> int {
        smoothed(self.smooth, temp, tuning.weight as int)
    }

    /// What the curve asks for after one more reading.
    pub open spec fn next_wanted(
        self,
        curve: Seq<(i32, i32)>,
        hyst: int,
        tuning: Tuning,
        temp: int,
    ) -> int {
        wanted(curve, hyst, degrees(self.next_smooth(tuning, temp)), self.commanded)
    }

    /// The duty to drive after one more reading.
    pub open spec fn next_target(
        self,
        curve: Seq<(i32, i32)>,
        hyst: int,
        tuning: Tuning,
        temp: int,
        manual: Option<i32>,
    ) -> int {
        driven(
            manual,
            held(
                self.next_wanted(curve, hyst, tuning, temp),
                self.commanded,
                tuning.deadband as int,
            ),
            temp,
        )
    }

    /// What is remembered after one more reading.
    pub open spec fn next(
        self,
        curve: Seq<(i32, i32)>,
        hyst: int,
        tuning: Tuning,
        temp: int,
        manual: Option<i32>,
    ) -> ControlView {
        ControlView {
            smooth: Some(self.next_smooth(tuning, temp)),
            commanded: self.next_target(curve, hyst, tuning, temp, manual),
        }
    }
}

impl ControlState {
    #[verifier::type_invariant]
    spec fn in_range(self) -> bool {
        self.smooth is Some ==> i32::MIN * 1000 <= self.smooth->0 <= i32::MAX * 1000
    }

    /// The state before the first tick.
    pub fn new() -> (r: Self)
        ensures
            r@ == (ControlView { smooth: None, commanded: -1 }),
    {
        ControlState { smooth: None, commanded: -1 }
    }

    /// Smoothed temperature in thousandths of a degree; nothing before the first tick.
    pub fn smooth(&self) -> (r: Option<i64>)
        ensures
            match r {
                Some(s) => self@.smooth == Some(s as int),
                None => self@.smooth is None,
            },
    {
        self.smooth
    }

    /// The duty of the last tick; -1 before the first.
    pub fn commanded(&self) -> (r: i32)
        ensures
            r == self@.commanded,
    {
        self.commanded
    }

    /// Takes one temperature reading and decides the duty.
    pub fn step(
        &mut self,
        curve: &[(i32, i32)],
        hyst: i32,
        tuning: Tuning,
        temp: i32,
        manual: Option<i32>,
    ) -> (d: Decision)
        ensures
            final(self)@ == old(self)@.next(curve@, hyst as int, tuning, temp as int, manual),
            d.wanted == old(self)@.next_wanted(curve@, hyst as int, tuning, temp as int),
            d.target == old(self)@.next_target(curve@, hyst as int, tuning, temp as int, manual),
    {
        proof {
            use_type_invariant(&*self);
        }
        let w = clamp(tuning.weight, 1, 100);
        let t: i64 = temp as i64 * 1000;
        let s: i64 = match self.smooth {
            None => t,
            Some(p) => {
                proof {
                    lemma_average(p as int, t as int, w as int);
                    assert(-214748364800000 <= w as i64 * t <= 214748364800000) by (nonlinear_arith)
                        requires
                            1 <= w <= 100,
                            -2147483648000 <= t <= 2147483648000,
                    ;
                    assert(-214748364800000 <= (100 - w as i64) * p <= 214748364800000)
                        by (nonlinear_arith)
                        requires
                            1 <= w <= 100,
                            -2147483648000 <= p <= 2147483648000,
                    ;
                }
                floor_div(w as i64 * t + (100 - w as i64) * p, 100)
            },
        };
        assert(s == self@.next_smooth(tuning, temp as int));
        let smooth = floor_div(s + 500, 1000) as i32;
        let c: i32 = if self.commanded >= 0 {
            self.commanded
        } else {
            0
        };
        let up = interp(curve, smooth);
        let wanted = if up >= c {
            up
        } else {
            let later = interp_above(curve, smooth, hyst);
            if later <= c {
                later
            } else {
                c
            }
        };
        let gap: i64 = wanted as i64 - self.commanded as i64;
        let band: i64 = tuning.deadband as i64;
        let held = if self.commanded >= 0 && -band <= gap && gap <= band {
            self.commanded
        } else {
            wanted
        };
        let asked = match manual {
            Some(m) => m,
            None => held,
        };
        let floor = safety_floor(temp);
        let target = if asked >= floor {
            asked
        } else {
            floor
        };
        self.smooth = Some(s);
        self.commanded = target;
        Decision { wanted, target }
    }
}

/// Division rounded down.
fn floor_div(a: i64, b: i64) -> (q: i64)
    requires
        b == 100 || b == 1000,
        -0x10_0000_0000_0000 <= a <= 0x10_0000_0000_0000,
    ensures
        q == a as int / b as int,
{
    if a >= 0 {
        a / b
    } else {
        -((-a + (b - 1)) / b)
    }
}

/// The duty that `curve` asks for `hyst` degrees above `temp`.
fn interp_above(curve: &[(i32, i32)], temp: i32, hyst: i32) -> (r: i32)
    ensures
        r == duty_at(curve@, temp + hyst),
{
    let t: i64 = temp as i64 + hyst as i64;
    if -2147483648 <= t && t <= 2147483647 {
        interp(curve, t as i32)
    } else if curve.len() == 0 {
        0
    } else if t < 0 {
        curve[0].1
    } else {
        curve[curve.len() - 1].1
    }
}

/// A weighted average lies between its two values.
proof fn lemma_average(p: int, t: int, w: int)
    requires
        1 <= w <= 100,
    ensures
        min(p, t) <= (w * t + (100 - w) * p) / 100 <= max(p, t),
{
    assert(100 * min(p, t) <= w * t + (100 - w) * p <= 100 * max(p, t)) by (nonlinear_arith)
        requires
            1 <= w <= 100,
            min(p, t) <= p <= max(p, t),
            min(p, t) <= t <= max(p, t),
    ;
}

/// A reading of the EC, with `other` in place of one that failed.
pub open spec fn reading<B: EcBackend>(b: B, req: u64, other: i32, v: i32) -> bool {
    exists|a: Result<i32, EcError>| #[trigger] b.may_read(req, a) && v == or(a, other)
}

/// A duty reading of the EC in percent, with `other` in place of one that failed.
pub open spec fn duty_reading<B: EcBackend>(b: B, req: u64, other: i32, v: i32) -> bool {
    exists|a: Result<i32, EcError>| #[trigger] b.may_read(req, a) && v == or(percent(a), other)
}

/// The value of a reading, or `other` where it failed.
pub open spec fn or(a: Result<i32, EcError>, other: i32) -> i32 {
    match a {
        Ok(v) => v,
        Err(_) => other,
    }
}

/// The value of a reading, or `other` where it failed.
pub fn value_or(a: Result<i32, EcError>, other: i32) -> (v: i32)
    ensures
        v == or(a, other),
{
    match a {
        Ok(v) => v,
        Err(_) => other,
    }
}

/// The fans were set to `target`, and `changed` says whether that worked and the duty is a
/// `new` one.
pub open spec fn drove<B: EcBackend>(
    pre: TuxedoIo<B>,
    post: TuxedoIo<B>,
    target: i32,
    new: bool,
    changed: bool,
) -> bool {
    exists|r: Result<(), EcError>| #[trigger]
        pre.set_fans(target, post, r) && changed == (r is Ok && new)
}

/// What one tick of the loop saw and did.
#[derive(Clone, Copy, Debug, PartialEq, Eq, Structural)]
pub struct Tick {
    pub cpu_temp: i32,
    pub gpu_temp: i32,
    /// The hotter of the two, which the loop goes by.
    pub temp: i32,
    pub decision: Decision,
    /// Whether the fans were set to a duty other than that of the last tick.
    pub changed: bool,
    pub cpu_fan: i32,
    pub gpu_fan: i32,
    pub mode: i32,
}

/// A tick took the EC and the loop from one state to the next, and this is what it saw and did:
/// it read the temperatures, decided, set the fans unless the board is read-only, and read back
/// what the fans do. Readings that fail count as zero.
pub open spec fn ticked<B: EcBackend>(
    pre: TuxedoIo<B>,
    st: ControlView,
    curve: Seq<(i32, i32)>,
    hyst: i32,
    tuning: Tuning,
    manual: Option<i32>,
    post: TuxedoIo<B>,
    next: ControlView,
    t: Tick,
) -> bool {
    let temp = t.temp as int;
    let target = t.decision.target;
    &&& reading(pre.ec(), R_UW_FAN_TEMP, 0, t.cpu_temp)
    &&& reading(pre.ec(), R_UW_FAN_TEMP2, 0, t.gpu_temp)
    &&& temp == max(t.cpu_temp as int, t.gpu_temp as int)
    &&& t.decision.wanted == st.next_wanted(curve, hyst as int, tuning, temp)
    &&& target == st.next_target(curve, hyst as int, tuning, temp, manual)
    &&& if pre.writable() {
        drove(pre, post, target, target != st.commanded, t.changed)
    } else {
        post == pre && !t.changed
    }
    &&& duty_reading(post.ec(), R_UW_FANSPEED, 0, t.cpu_fan)
    &&& duty_reading(post.ec(), R_UW_FANSPEED2, 0, t.gpu_fan)
    &&& reading(post.ec(), R_UW_MODE, 0, t.mode)
    &&& next == st.next(curve, hyst as int, tuning, temp, manual)
}

/// One tick: read the temperatures, decide, set the fans where the guard is open, and read back
/// what the fans do. Readings that fail count as zero.
pub fn tick<B: EcBackend>(
    dev: &mut TuxedoIo<B>,
    st: &mut ControlState,
    curve: &[(i32, i32)],
    hyst: i32,
    tuning: Tuning,
    manual: Option<i32>,
) -> (t: Tick)
    ensures
        ticked(*old(dev), old(st)@, curve@, hyst, tuning, manual, *final(dev), final(st)@, t),
{
    let cpu_temp = value_or(dev.cpu_temp(), 0);
    let gpu_temp = value_or(dev.gpu_temp(), 0);
    let temp = if cpu_temp >= gpu_temp {
        cpu_temp
    } else {
        gpu_temp
    };
    let before = st.commanded;
    let decision = st.step(curve, hyst, tuning, temp, manual);
    let mut changed = false;
    if dev.write_allowed() {
        let r = dev.set_fan_pct(decision.target);
        changed = r.is_ok() && decision.target != before;
        assert(old(dev).set_fans(decision.target, *dev, r));
        assert(drove(*old(dev), *dev, decision.target, decision.target != before, changed));
    }
    let cpu_fan = value_or(dev.cpu_fan_pct(), 0);
    let gpu_fan = value_or(dev.gpu_fan_pct(), 0);
    let mode = value_or(dev.mode(), 0);
    Tick { cpu_temp, gpu_temp, temp, decision, changed, cpu_fan, gpu_fan, mode }
}

/// A tick on a read-only board sends nothing to the EC.
pub proof fn read_only_tick<B: EcBackend>(
    pre: TuxedoIo<B>,
    st: ControlView,
    curve: Seq<(i32, i32)>,
    hyst: i32,
    tuning: Tuning,
    manual: Option<i32>,
    post: TuxedoIo<B>,
    next: ControlView,
    t: Tick,
)
    requires
        !pre.writable(),
        ticked(pre, st, curve, hyst, tuning, manual, post, next, t),
    ensures
        post == pre,
        !t.changed,
{
}

/// Whatever the curve, a manual override or the loop's past ask for, the fan is never driven
/// below the safety floor of the temperature as it was read.
pub proof fn never_below_floor(
    st: ControlView,
    curve: Seq<(i32, i32)>,
    hyst: int,
    tuning: Tuning,
    temp: int,
    manual: Option<i32>,
)
    ensures
        st.next_target(curve, hyst, tuning, temp, manual) >= floor_at(temp),
{
}

/// A manual override at or above the safety floor is driven as it stands.
pub proof fn manual_is_held(
    st: ControlView,
    curve: Seq<(i32, i32)>,
    hyst: int,
    tuning: Tuning,
    temp: int,
    m: i32,
)
    requires
        m >= floor_at(temp),
    ensures
        st.next_target(curve, hyst, tuning, temp, Some(m)) == m,
{
}

/// Where a wanted duty lies within the deadband of the one that is driven, the fan stays as it
/// is, unless the safety floor asks for more.
pub proof fn small_changes_hold(
    st: ControlView,
    curve: Seq<(i32, i32)>,
    hyst: int,
    tuning: Tuning,
    temp: int,
)
    requires
        st.commanded >= floor_at(temp),
        -tuning.deadband <= st.next_wanted(curve, hyst, tuning, temp) - st.commanded
            <= tuning.deadband,
    ensures
        st.next_target(curve, hyst, tuning, temp, None) == st.commanded,
{
}

/// Without an override, what is driven above the safety floor is what the curve asks for, up to
/// the deadband.
pub proof fn curve_is_followed(
    st: ControlView,
    curve: Seq<(i32, i32)>,
    hyst: int,
    tuning: Tuning,
    temp: int,
)
    requires
        tuning.deadband >= 0,
    ensures
        ({
            let t = st.next_target(curve, hyst, tuning, temp, None);
            let w = st.next_wanted(curve, hyst, tuning, temp);
            t == floor_at(temp) || w - tuning.deadband <= t <= w + tuning.deadband
        }),
{
}

/// Without smoothing and without a deadband, the fan follows the curve at the temperature as
/// it was read.
pub proof fn direct_follows_curve(
    st: ControlView,
    curve: Seq<(i32, i32)>,
    hyst: int,
    temp: int,
    manual: Option<i32>,
)
    ensures
        ({
            let tuning = Tuning { weight: 100, deadband: 0 };
            let w = wanted(curve, hyst, temp, st.commanded);
            &&& st.next_wanted(curve, hyst, tuning, temp) == w
            &&& st.next_target(curve, hyst, tuning, temp, manual) == driven(manual, w, temp)
        }),
{
    if let Some(s) = st.smooth {
        assert(100 * (temp * 1000) + (100 - 100) * s == 100 * (temp * 1000)) by (nonlinear_arith);
    }
}

/// The smoothed temperature lies between the last one and the new reading: it follows the
/// trend and never overshoots.
pub proof fn smoothing_stays_between(s: int, temp: int, weight: int)
    ensures
        min(s, temp * 1000) <= smoothed(Some(s), temp, weight) <= max(
            s,
            temp * 1000,
        ),
{
    lemma_average(s, temp * 1000, clamped(weight, 1, 100));
}

/// A temperature that does not change is not changed by smoothing.
pub proof fn steady_heat_is_kept(temp: int, weight: int)
    ensures
        smoothed(Some(temp * 1000), temp, weight) == temp * 1000,
        degrees(temp * 1000) == temp,
{
    lemma_average(temp * 1000, temp * 1000, clamped(weight, 1, 100));
}

/// The smoothed temperature closes in on a reading that lasts, until it is the same degree.
pub proof fn smoothing_closes_in(s: int, temp: int, weight: int)
    ensures
        s > temp * 1000 ==> temp * 1000 <= smoothed(Some(s), temp, weight) < s,
        s <= temp * 1000 - 100 ==> s < smoothed(Some(s), temp, weight) <= temp * 1000,
        temp * 1000 - 100 < s <= temp * 1000 ==> degrees(s) == temp && degrees(
            smoothed(Some(s), temp, weight),
        ) == temp,
{
    let w = clamped(weight, 1, 100);
    let t = temp * 1000;
    let p = s;
    lemma_average(p, t, w);
    let sum = w * t + (100 - w) * p;
    assert(sum == 100 * p + w * (t - p)) by (nonlinear_arith)
        requires
            sum == w * t + (100 - w) * p,
    ;
    if p > t {
        assert(w * (t - p) < 0) by (nonlinear_arith)
            requires
                1 <= w,
                t < p,
        ;
    }
    if p <= t - 100 {
        assert(w * (t - p) >= 100) by (nonlinear_arith)
            requires
                1 <= w,
                t - p >= 100,
        ;
    }
}

/// Once the smoothed temperature shows the degree that is read, it goes on to show it, and the
/// fan is steady: on a curve that never falls, the duty of one tick is the duty of every tick
/// that follows at that temperature.
pub proof fn fan_settles(
    st: ControlView,
    curve: Seq<(i32, i32)>,
    hyst: int,
    tuning: Tuning,
    temp: int,
)
    requires
        ascending(curve),
        rising(curve),
        hyst >= 0,
        tuning.deadband >= 0,
        st.smooth is Some && degrees(st.smooth->0) == temp,
    ensures
        ({
            let next = st.next(curve, hyst, tuning, temp, None);
            &&& degrees(next.smooth->0) == temp
            &&& temp * 1000 - 100 < st.smooth->0 <= temp * 1000 ==> temp * 1000 - 100
                < next.smooth->0 <= temp * 1000
            &&& next.next_target(curve, hyst, tuning, temp, None) == next.commanded
        }),
{
    let next = st.next(curve, hyst, tuning, temp, None);
    let w = clamped(tuning.weight as int, 1, 100);
    lemma_average(st.smooth->0, temp * 1000, w);
    lemma_average(next.smooth->0, temp * 1000, w);
    duty_rises(curve, temp, temp + hyst);
}

/// The loop after `n` ticks that all read `temp`, without an override.
pub open spec fn after_ticks(
    st: ControlView,
    curve: Seq<(i32, i32)>,
    hyst: int,
    tuning: Tuning,
    temp: int,
    n: nat,
) -> ControlView
    decreases n,
{
    if n == 0 {
        st
    } else {
        after_ticks(st, curve, hyst, tuning, temp, (n - 1) as nat).next(
            curve,
            hyst,
            tuning,
            temp,
            None,
        )
    }
}

/// How far, in thousandths of a degree, the smoothed temperature is from a reading.
pub open spec fn gap(st: ControlView, temp: int) -> nat {
    match st.smooth {
        None => 0,
        Some(s) => if s >= temp * 1000 {
            (s - temp * 1000) as nat
        } else {
            (temp * 1000 - s) as nat
        },
    }
}

/// After `n` ticks the smoothed temperature is there, or `n` thousandths of a degree nearer.
proof fn lemma_nearer(
    st: ControlView,
    curve: Seq<(i32, i32)>,
    hyst: int,
    tuning: Tuning,
    temp: int,
    n: nat,
)
    ensures
        ({
            let a = after_ticks(st, curve, hyst, tuning, temp, n);
            &&& n > 0 ==> a.smooth is Some
            &&& (a.smooth is Some && degrees(a.smooth->0) == temp) || gap(a, temp) + n <= gap(
                st,
                temp,
            )
        }),
    decreases n,
{
    if n > 0 {
        let k = (n - 1) as nat;
        lemma_nearer(st, curve, hyst, tuning, temp, k);
        let last = after_ticks(st, curve, hyst, tuning, temp, k);
        if let Some(s) = last.smooth {
            lemma_average(s, temp * 1000, clamped(tuning.weight as int, 1, 100));
            smoothing_closes_in(s, temp, tuning.weight as int);
        }
    }
}

/// At a temperature that lasts, the fan comes to rest: on a curve that never falls, from the
/// tick on by which the smoothed temperature is there, its duty does not change any more.
pub proof fn fan_comes_to_rest(
    st: ControlView,
    curve: Seq<(i32, i32)>,
    hyst: int,
    tuning: Tuning,
    temp: int,
    n: nat,
)
    requires
        ascending(curve),
        rising(curve),
        hyst >= 0,
        tuning.deadband >= 0,
        n > gap(st, temp) + 1,
    ensures
        after_ticks(st, curve, hyst, tuning, temp, n + 1).commanded == after_ticks(
            st,
            curve,
            hyst,
            tuning,
            temp,
            n,
        ).commanded,
{
    let k = (n - 1) as nat;
    lemma_nearer(st, curve, hyst, tuning, temp, k);
    fan_settles(after_ticks(st, curve, hyst, tuning, temp, k), curve, hyst, tuning, temp);
    let a = after_ticks(st, curve, hyst, tuning, temp, n);
    assert(after_ticks(st, curve, hyst, tuning, temp, n + 1) == a.next(
        curve,
        hyst,
        tuning,
        temp,
        None,
    ));
}

/// More heat speeds the fan up at once; less heat slows it down late, never below what the
/// curve asks for and never above what the fan runs at.
pub proof fn slows_down_late(curve: Seq<(i32, i32)>, hyst: int, temp: int, commanded: int)
    requires
        ascending(curve),
        rising(curve),
        hyst >= 0,
    ensures
        duty_at(curve, temp) >= max(commanded, 0) ==> wanted(curve, hyst, temp, commanded)
            == duty_at(curve, temp),
        duty_at(curve, temp) < max(commanded, 0) ==> duty_at(curve, temp) <= wanted(
            curve,
            hyst,
            temp,
            commanded,
        ) <= max(commanded, 0),
{
    duty_rises(curve, temp, temp + hyst);
}

/// A curve and an override between 0 and 100 percent keep the fan between 0 and 100 percent.
pub proof fn target_within(
    st: ControlView,
    curve: Seq<(i32, i32)>,
    hyst: int,
    tuning: Tuning,
    temp: int,
    manual: Option<i32>,
)
    requires
        duties_within(curve, 0, 100),
        manual is Some ==> 0 <= manual->0 <= 100,
        st.commanded <= 100,
    ensures
        0 <= st.next_target(curve, hyst, tuning, temp, manual) <= 100,
{
    let s = degrees(st.next_smooth(tuning, temp));
    if curve.len() > 0 {
        duty_within(curve, s, 0, 100);
        duty_within(curve, s + hyst, 0, 100);
    }
}

/// The larger of two numbers is one of them and not below the other; the smaller likewise.
pub proof fn larger_and_smaller(a: int, b: int)
    ensures
        max(a, b) >= a && max(a, b) >= b && (max(a, b) == a || max(a, b) == b),
        min(a, b) <= a && min(a, b) <= b && (min(a, b) == a || min(a, b) == b),
{
}

/// The smoothed temperature is the weighted mean of the last one and the new reading, rounded
/// down to a thousandth; the first reading is taken as it is. A weight outside 1 to 100 percent
/// counts as the nearest inside.
pub proof fn smoothing_is_weighted_mean(s: int, temp: int, weight: int)
    ensures
        smoothed(None, temp, weight) == 1000 * temp,
        1 <= weight <= 100 ==> 100 * smoothed(Some(s), temp, weight) <= weight * (1000 * temp) + (
        100 - weight) * s < 100 * smoothed(Some(s), temp, weight) + 100,
        weight < 1 ==> smoothed(Some(s), temp, weight) == smoothed(Some(s), temp, 1),
        weight > 100 ==> smoothed(Some(s), temp, weight) == smoothed(Some(s), temp, 100),
{
    assert(weight * (1000 * temp) == weight * (temp * 1000)) by (nonlinear_arith);
}

/// Thousandths are rounded to the nearest degree, halves up.
pub proof fn degrees_are_nearest(s: int)
    ensures
        1000 * degrees(s) - 500 <= s < 1000 * degrees(s) + 500,
{
}

/// Slowing down is bounded by the hysteresis: where the curve asks for less than the fan runs
/// at, the wanted duty is the smaller of what the fan runs at and of what the curve asks for
/// `hyst` degrees hotter. Otherwise it is what the curve asks for. A fan that was never driven
/// counts as one at rest.
pub proof fn slowing_is_bounded(curve: Seq<(i32, i32)>, hyst: int, temp: int, commanded: int)
    ensures
        ({
            let w = wanted(curve, hyst, temp, commanded);
            let up = duty_at(curve, temp);
            let later = duty_at(curve, temp + hyst);
            &&& 0 <= commanded <= up ==> w == up
            &&& up < commanded && 0 <= commanded ==> w <= later && w <= commanded && (w == later
                || w == commanded)
            &&& commanded < 0 ==> w == wanted(curve, hyst, temp, 0)
        }),
{
}

/// What a tick wants is what the curve gives at the degree that the smoothed temperature rounds
/// to.
pub proof fn tick_looks_up_smoothed_degree(
    st: ControlView,
    curve: Seq<(i32, i32)>,
    hyst: int,
    tuning: Tuning,
    temp: int,
    deg: int,
)
    requires
        1000 * deg - 500 <= smoothed(st.smooth, temp, tuning.weight as int) < 1000 * deg + 500,
    ensures
        st.next_wanted(curve, hyst, tuning, temp) == wanted(curve, hyst, deg, st.commanded),
        st.next_smooth(tuning, temp) == smoothed(st.smooth, temp, tuning.weight as int),
{
}

/// A tick drives the override where there is one. Without one it drives the duty of the last
/// tick where the wanted one is within the deadband of it, and the wanted one otherwise. In each
/// case the safety floor of the reading is driven where it is more.
pub proof fn tick_drives_what_is_asked(
    st: ControlView,
    curve: Seq<(i32, i32)>,
    hyst: int,
    tuning: Tuning,
    temp: int,
    manual: Option<i32>,
)
    ensures
        ({
            let w = st.next_wanted(curve, hyst, tuning, temp);
            let t = st.next_target(curve, hyst, tuning, temp, manual);
            let c = st.commanded;
            let near = 0 <= c && c - tuning.deadband <= w && w <= c + tuning.deadband;
            &&& t >= floor_at(temp)
            &&& t > floor_at(temp) && manual is Some ==> t == manual->0
            &&& t > floor_at(temp) && manual is None && near ==> t == c
            &&& t > floor_at(temp) && manual is None && !near ==> t == w
            &&& t == floor_at(temp) && manual is Some ==> manual->0 <= t
            &&& t == floor_at(temp) && manual is None && near ==> c <= t
            &&& t == floor_at(temp) && manual is None && !near ==> w <= t
        }),
{
}

/// What is remembered of a tick is its smoothed temperature and the duty that it drove.
pub proof fn tick_is_remembered(
    st: ControlView,
    curve: Seq<(i32, i32)>,
    hyst: int,
    tuning: Tuning,
    temp: int,
    manual: Option<i32>,
)
    ensures
        ({
            let n = st.next(curve, hyst, tuning, temp, manual);
            &&& n.smooth == Some(smoothed(st.smooth, temp, tuning.weight as int))
            &&& n.commanded == st.next_target(curve, hyst, tuning, temp, manual)
        }),
{
}

/// At a temperature that lasts, the fan comes to rest where the curve wants it: within the
/// deadband of a duty between what the curve asks for there and what it asks for `hyst` degrees
/// hotter, or at the safety floor.
pub proof fn fan_rests_near_curve(
    st: ControlView,
    curve: Seq<(i32, i32)>,
    hyst: int,
    tuning: Tuning,
    temp: int,
    n: nat,
)
    requires
        forall|i: int, j: int| 0 <= i <= j < curve.len() ==> curve[i].0 <= curve[j].0,
        forall|i: int, j: int| 0 <= i <= j < curve.len() ==> curve[i].1 <= curve[j].1,
        hyst >= 0,
        tuning.deadband >= 0,
        n > gap(st, temp) + 1,
    ensures
        ({
            let c = after_ticks(st, curve, hyst, tuning, temp, n).commanded;
            c == floor_at(temp) || duty_at(curve, temp) - tuning.deadband <= c <= duty_at(
                curve,
                temp + hyst,
            ) + tuning.deadband
        }),
        after_ticks(st, curve, hyst, tuning, temp, n + 1).commanded == after_ticks(
            st,
            curve,
            hyst,
            tuning,
            temp,
            n,
        ).commanded,
{
    let k = (n - 1) as nat;
    lemma_nearer(st, curve, hyst, tuning, temp, k);
    let before = after_ticks(st, curve, hyst, tuning, temp, k);
    fan_settles(before, curve, hyst, tuning, temp);
    fan_comes_to_rest(st, curve, hyst, tuning, temp, n);
    duty_rises(curve, temp, temp + hyst);
    curve_is_followed(before, curve, hyst, tuning, temp);
}

/// The n-th tick at a lasting temperature follows the one before it.
pub proof fn ticks_follow_each_other(
    st: ControlView,
    curve: Seq<(i32, i32)>,
    hyst: int,
    tuning: Tuning,
    temp: int,
    n: nat,
)
    ensures
        after_ticks(st, curve, hyst, tuning, temp, 0) == st,
        ({
            let a = after_ticks(st, curve, hyst, tuning, temp, n);
            let b = after_ticks(st, curve, hyst, tuning, temp, n + 1);
            &&& b.smooth == Some(smoothed(a.smooth, temp, tuning.weight as int))
            &&& b.commanded == a.next_target(curve, hyst, tuning, temp, None)
        }),
{
}

/// A tick goes by the hotter of the two sensors, follows the given curve from the state that the
/// loop was in, and remembers what it drove. On a board that may be written to, it sets the fans
/// to that duty.
pub proof fn tick_goes_by_the_hotter<B: EcBackend>(
    pre: TuxedoIo<B>,
    st: ControlView,
    curve: Seq<(i32, i32)>,
    hyst: i32,
    tuning: Tuning,
    manual: Option<i32>,
    post: TuxedoIo<B>,
    next: ControlView,
    t: Tick,
)
    requires
        ticked(pre, st, curve, hyst, tuning, manual, post, next, t),
    ensures
        t.temp >= t.cpu_temp && t.temp >= t.gpu_temp,
        t.temp == t.cpu_temp || t.temp == t.gpu_temp,
        t.decision.target == st.next_target(curve, hyst as int, tuning, t.temp as int, manual),
        t.decision.wanted == st.next_wanted(curve, hyst as int, tuning, t.temp as int),
        next.commanded == t.decision.target,
        next.smooth == Some(smoothed(st.smooth, t.temp as int, tuning.weight as int)),
        pre.writable() ==> exists|r: Result<(), EcError>| #[trigger]
            pre.set_fans(t.decision.target, post, r) && t.changed == (r is Ok && t.decision.target
                != st.commanded),
        exists|x: Result<i32, EcError>| #[trigger]
            pre.ec().may_read(R_UW_FAN_TEMP, x) && match x {
                Ok(v) => t.cpu_temp == v,
                Err(_) => t.cpu_temp == 0,
            },
        exists|x: Result<i32, EcError>| #[trigger]
            pre.ec().may_read(R_UW_FAN_TEMP2, x) && match x {
                Ok(v) => t.gpu_temp == v,
                Err(_) => t.gpu_temp == 0,
            },
        exists|x: Result<i32, EcError>| #[trigger]
            post.ec().may_read(R_UW_FANSPEED, x) && match x {
                Ok(v) => t.cpu_fan == pct_of_raw(v as int) as i32,
                Err(_) => t.cpu_fan == 0,
            },
        exists|x: Result<i32, EcError>| #[trigger]
            post.ec().may_read(R_UW_FANSPEED2, x) && match x {
                Ok(v) => t.gpu_fan == pct_of_raw(v as int) as i32,
                Err(_) => t.gpu_fan == 0,
            },
        exists|x: Result<i32, EcError>| #[trigger]
            post.ec().may_read(R_UW_MODE, x) && match x {
                Ok(v) => t.mode == v,
                Err(_) => t.mode == 0,
            },
{
}

/// A reading that worked counts as it is, and one that failed as the value in its place.
pub proof fn failed_readings_are_replaced(v: i32, e: EcError, other: i32)
    ensures
        or(Ok(v), other) == v,
        or(Err(e), other) == other,
{
}

} // verus!
