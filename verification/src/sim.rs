//! A simulated EC, so that the control logic runs without hardware.
//!
//! [`MockEc`] behaves as the driver does where the control logic depends on it: model id,
//! capability probes, fan duty, the ownership bit that drops fan writes, and the bits of the
//! performance profile. Model ids and fan scales are those of the GPL `tuxedo-drivers`;
//! values that the driver does not fix are invented for coverage.

use crate::control::{max, min, ticked, ControlView, Tick, Tuning};
use crate::curve::floor_at;
use crate::device::{
    keeps_mode, known_model, validated, EcBackend, EcError, TuxedoIo, FAN_OWNERSHIP_BIT,
};
use crate::ioctl::{
    R_HWCHECK_UW, R_UW_FANSPEED, R_UW_FANSPEED2, R_UW_FANS_MIN_SPEED, R_UW_FANS_OFF_AVAILABLE,
    R_UW_FAN_TEMP, R_UW_FAN_TEMP2, R_UW_MODE, R_UW_MODEL_ID, R_UW_PROFS_AVAILABLE, W_UW_FANAUTO,
    W_UW_FANSPEED, W_UW_FANSPEED2, W_UW_MODE, W_UW_PERF_PROF,
};
use crate::perf::PerfProfile;
use crate::scale::{
    clamp, clamped, clamping_is_nearest, pct_is_nearest, pct_of_raw, raw_is_proportional,
    raw_monotone, raw_of_pct, scaling_round_trip, FAN_MAX,
};
use vstd::prelude::*;

verus! {

/// Kind of keyboard backlight.
#[derive(Clone, Copy, Debug, PartialEq, Eq, Structural)]
pub enum KbdBacklight {
    Absent,
    White,
    OneZoneRgb,
    PerKeyRgb,
}

/// A simulated board. Whether it may be written to is not stored here: that follows from the
/// registry of validated models.
#[derive(Clone, Copy, Debug)]
pub struct ModelFixture {
    pub model_id: i32,
    pub name: &'static str,
    pub is_uniwill: bool,
    pub fan_max: i32,
    pub fans_off: bool,
    pub fans_min_speed: i32,
    pub profs_available: i32,
    pub charging: bool,
    pub kbd: KbdBacklight,
    pub kbd_max_brightness: i32,
}

impl ModelFixture {
    /// Whether the board is in the registry of validated models.
    pub fn is_validated(&self) -> (r: bool)
        ensures
            r == validated(self.model_id),
    {
        known_model(self.model_id).is_some()
    }
}

/// The simulated boards.
pub open spec fn model_table() -> Seq<ModelFixture> {
    seq![
        ModelFixture {
            model_id: 0x1a,
            name: "InfinityBook Pro AMD Gen9 (GXxHRXx) [validated]",
            is_uniwill: true,
            fan_max: 0xc8,
            fans_off: true,
            fans_min_speed: 25,
            profs_available: 3,
            charging: true,
            kbd: KbdBacklight::White,
            kbd_max_brightness: 4,
        },
        ModelFixture {
            model_id: 0x09,
            name: "PF5LUXG Pulse Gen2",
            is_uniwill: true,
            fan_max: 0xc8,
            fans_off: true,
            fans_min_speed: 25,
            profs_available: 2,
            charging: false,
            kbd: KbdBacklight::OneZoneRgb,
            kbd_max_brightness: 255,
        },
        ModelFixture {
            model_id: 0x12,
            name: "PH4TRX IBP Gen6 (legacy-path exception)",
            is_uniwill: true,
            fan_max: 0xff,
            fans_off: true,
            fans_min_speed: 25,
            profs_available: 3,
            charging: true,
            kbd: KbdBacklight::White,
            kbd_max_brightness: 4,
        },
        ModelFixture {
            model_id: 0x13,
            name: "PH4TUX IBP Gen6",
            is_uniwill: true,
            fan_max: 0xc8,
            fans_off: true,
            fans_min_speed: 25,
            profs_available: 3,
            charging: true,
            kbd: KbdBacklight::White,
            kbd_max_brightness: 4,
        },
        ModelFixture {
            model_id: 0x14,
            name: "PH4TQF IBP Gen6",
            is_uniwill: true,
            fan_max: 0xc8,
            fans_off: true,
            fans_min_speed: 25,
            profs_available: 3,
            charging: true,
            kbd: KbdBacklight::White,
            kbd_max_brightness: 4,
        },
        ModelFixture {
            model_id: 0x17,
            name: "PH4AQF/ARX IBP Gen7",
            is_uniwill: true,
            fan_max: 0xc8,
            fans_off: true,
            fans_min_speed: 25,
            profs_available: 3,
            charging: true,
            kbd: KbdBacklight::PerKeyRgb,
            kbd_max_brightness: 255,
        },
        ModelFixture {
            model_id: 0x2a,
            name: "Imaginary future Uniwill (2 profiles, no charging)",
            is_uniwill: true,
            fan_max: 0xc8,
            fans_off: false,
            fans_min_speed: 30,
            profs_available: 2,
            charging: false,
            kbd: KbdBacklight::OneZoneRgb,
            kbd_max_brightness: 255,
        },
        ModelFixture {
            model_id: 0x2b,
            name: "Imaginary future Uniwill (no perf profiles)",
            is_uniwill: true,
            fan_max: 0xc8,
            fans_off: true,
            fans_min_speed: 25,
            profs_available: 0,
            charging: true,
            kbd: KbdBacklight::Absent,
            kbd_max_brightness: 0,
        },
        ModelFixture {
            model_id: 0x00,
            name: "Imaginary Clevo (not Uniwill)",
            is_uniwill: false,
            fan_max: 0xff,
            fans_off: true,
            fans_min_speed: 20,
            profs_available: 0,
            charging: false,
            kbd: KbdBacklight::PerKeyRgb,
            kbd_max_brightness: 255,
        },
    ]
}

fn uniwill(
    model_id: i32,
    name: &'static str,
    fan_max: i32,
    profs_available: i32,
    charging: bool,
    kbd: KbdBacklight,
    kbd_max_brightness: i32,
) -> (m: ModelFixture)
    ensures
        m == (ModelFixture {
            model_id,
            name,
            is_uniwill: true,
            fan_max,
            fans_off: true,
            fans_min_speed: 25,
            profs_available,
            charging,
            kbd,
            kbd_max_brightness,
        }),
{
    ModelFixture {
        model_id,
        name,
        is_uniwill: true,
        fan_max,
        fans_off: true,
        fans_min_speed: 25,
        profs_available,
        charging,
        kbd,
        kbd_max_brightness,
    }
}

/// The simulated boards. The first is the only validated one; the last is no Uniwill board.
pub fn models() -> (r: Vec<ModelFixture>)
    ensures
        r@ == model_table(),
{
    let mut v: Vec<ModelFixture> = Vec::new();
    v.push(
        uniwill(
            0x1a,
            "InfinityBook Pro AMD Gen9 (GXxHRXx) [validated]",
            0xc8,
            3,
            true,
            KbdBacklight::White,
            4,
        ),
    );
    v.push(
        uniwill(0x09, "PF5LUXG Pulse Gen2", 0xc8, 2, false, KbdBacklight::OneZoneRgb, 255),
    );
    v.push(
        uniwill(
            0x12,
            "PH4TRX IBP Gen6 (legacy-path exception)",
            0xff,
            3,
            true,
            KbdBacklight::White,
            4,
        ),
    );
    v.push(uniwill(0x13, "PH4TUX IBP Gen6", 0xc8, 3, true, KbdBacklight::White, 4));
    v.push(uniwill(0x14, "PH4TQF IBP Gen6", 0xc8, 3, true, KbdBacklight::White, 4));
    v.push(uniwill(0x17, "PH4AQF/ARX IBP Gen7", 0xc8, 3, true, KbdBacklight::PerKeyRgb, 255));
    let mut future = uniwill(
        0x2a,
        "Imaginary future Uniwill (2 profiles, no charging)",
        0xc8,
        2,
        false,
        KbdBacklight::OneZoneRgb,
        255,
    );
    future.fans_off = false;
    future.fans_min_speed = 30;
    v.push(future);
    v.push(
        uniwill(
            0x2b,
            "Imaginary future Uniwill (no perf profiles)",
            0xc8,
            0,
            true,
            KbdBacklight::Absent,
            0,
        ),
    );
    v.push(
        ModelFixture {
            model_id: 0x00,
            name: "Imaginary Clevo (not Uniwill)",
            is_uniwill: false,
            fan_max: 0xff,
            fans_off: true,
            fans_min_speed: 20,
            profs_available: 0,
            charging: false,
            kbd: KbdBacklight::PerKeyRgb,
            kbd_max_brightness: 255,
        },
    );
    assert(v@ == model_table());
    v
}

/// Registers of a simulated EC.
#[derive(Clone, Copy, Debug, PartialEq, Eq, Structural)]
pub struct EcState {
    /// EC RAM 0x0751: the ownership bit 0x40 and the profile bits 0xa0 and 0x10.
    pub reg_0751: i32,
    pub fan1_raw: i32,
    pub fan2_raw: i32,
    pub auto: bool,
    pub cpu_temp: i32,
    pub gpu_temp: i32,
    /// Number of the last profile that was written; 0 before the first.
    pub last_perf: i32,
}

impl EcState {
    /// The registers of a fresh EC.
    pub open spec fn fresh() -> EcState {
        EcState {
            reg_0751: 0,
            fan1_raw: 0,
            fan2_raw: 0,
            auto: false,
            cpu_temp: 45,
            gpu_temp: 0,
            last_perf: 0,
        }
    }
}

impl Default for EcState {
    fn default() -> (r: Self)
        ensures
            r == EcState::fresh(),
    {
        EcState {
            reg_0751: 0,
            fan1_raw: 0,
            fan2_raw: 0,
            auto: false,
            cpu_temp: 45,
            gpu_temp: 0,
            last_perf: 0,
        }
    }
}

/// A simulated EC of one board.
pub struct MockEc {
    pub fix: ModelFixture,
    pub st: EcState,
}

/// The bits of EC RAM 0x0751 that select profile number `v`.
pub open spec fn perf_bits(v: i32) -> i32 {
    if v == 1 {
        0xa0
    } else if v == 3 {
        0x10
    } else {
        0
    }
}

impl MockEc {
    /// The value that a read of `req` gives; 0 for a request that the EC does not know.
    pub open spec fn value(&self, req: u64) -> i32 {
        if req == R_HWCHECK_UW {
            if self.fix.is_uniwill {
                1
            } else {
                0
            }
        } else if req == R_UW_MODEL_ID {
            self.fix.model_id
        } else if req == R_UW_FAN_TEMP {
            self.st.cpu_temp
        } else if req == R_UW_FAN_TEMP2 {
            self.st.gpu_temp
        } else if req == R_UW_FANSPEED {
            self.st.fan1_raw
        } else if req == R_UW_FANSPEED2 {
            self.st.fan2_raw
        } else if req == R_UW_MODE {
            self.st.reg_0751
        } else if req == R_UW_FANS_OFF_AVAILABLE {
            if self.fix.fans_off {
                1
            } else {
                0
            }
        } else if req == R_UW_FANS_MIN_SPEED {
            self.fix.fans_min_speed
        } else if req == R_UW_PROFS_AVAILABLE {
            self.fix.profs_available
        } else {
            0
        }
    }

    /// Whether the board exposes profile number `v`.
    pub open spec fn exposes(&self, v: i32) -> bool {
        self.fix.profs_available != 0 && !(self.fix.profs_available == 2 && v == 3)
    }

    /// The registers after `v` was written to `req`.
    pub open spec fn written(&self, req: u64, v: i32) -> EcState {
        let owned = self.st.reg_0751 & FAN_OWNERSHIP_BIT != 0;
        if req == W_UW_FANSPEED && !owned {
            EcState { fan1_raw: clamped(v as int, 0, self.fix.fan_max as int) as i32, ..self.st }
        } else if req == W_UW_FANSPEED2 && !owned {
            EcState { fan2_raw: clamped(v as int, 0, self.fix.fan_max as int) as i32, ..self.st }
        } else if req == W_UW_MODE {
            EcState { reg_0751: v, ..self.st }
        } else if req == W_UW_PERF_PROF && self.exposes(v) {
            EcState {
                reg_0751: (self.st.reg_0751 & !0xb0i32) | perf_bits(v),
                last_perf: v,
                ..self.st
            }
        } else {
            self.st
        }
    }

    /// A fresh EC of the board `fix`.
    pub fn new(fix: ModelFixture) -> (m: Self)
        ensures
            m == (MockEc { fix, st: EcState::fresh() }),
    {
        MockEc { fix, st: EcState::default() }
    }
}

impl EcBackend for MockEc {
    open spec fn may_read(&self, req: u64, r: Result<i32, EcError>) -> bool {
        r == Ok::<i32, EcError>(self.value(req))
    }

    open spec fn may_write(&self, req: u64, v: i32, post: Self, r: Result<(), EcError>) -> bool {
        &&& post == (MockEc { fix: self.fix, st: self.written(req, v) })
        &&& r == if req == W_UW_PERF_PROF && !self.exposes(v) {
            Err::<(), EcError>(EcError::InvalidInput)
        } else {
            Ok::<(), EcError>(())
        }
    }

    open spec fn may_call(&self, req: u64, post: Self, r: Result<(), EcError>) -> bool {
        &&& post == (MockEc {
            fix: self.fix,
            st: EcState { auto: self.st.auto || req == W_UW_FANAUTO, ..self.st },
        })
        &&& r == Ok::<(), EcError>(())
    }

    open spec fn may_version(&self, r: Result<Seq<char>, EcError>) -> bool {
        r == Ok::<Seq<char>, EcError>("0.3.9-sim"@)
    }

    fn rd(&self, req: u64) -> (r: Result<i32, EcError>) {
        let v: i32 = if req == R_HWCHECK_UW {
            if self.fix.is_uniwill {
                1
            } else {
                0
            }
        } else if req == R_UW_MODEL_ID {
            self.fix.model_id
        } else if req == R_UW_FAN_TEMP {
            self.st.cpu_temp
        } else if req == R_UW_FAN_TEMP2 {
            self.st.gpu_temp
        } else if req == R_UW_FANSPEED {
            self.st.fan1_raw
        } else if req == R_UW_FANSPEED2 {
            self.st.fan2_raw
        } else if req == R_UW_MODE {
            self.st.reg_0751
        } else if req == R_UW_FANS_OFF_AVAILABLE {
            if self.fix.fans_off {
                1
            } else {
                0
            }
        } else if req == R_UW_FANS_MIN_SPEED {
            self.fix.fans_min_speed
        } else if req == R_UW_PROFS_AVAILABLE {
            self.fix.profs_available
        } else {
            0
        };
        Ok(v)
    }

    fn wr(&mut self, req: u64, v: i32) -> (r: Result<(), EcError>) {
        if req == W_UW_FANSPEED || req == W_UW_FANSPEED2 {
            // The EC drops fan writes while it owns the fans.
            if self.st.reg_0751 & FAN_OWNERSHIP_BIT == 0 {
                let raw = clamp(v, 0, self.fix.fan_max);
                if req == W_UW_FANSPEED {
                    self.st.fan1_raw = raw;
                } else {
                    self.st.fan2_raw = raw;
                }
            }
            Ok(())
        } else if req == W_UW_MODE {
            self.st.reg_0751 = v;
            Ok(())
        } else if req == W_UW_PERF_PROF {
            if self.fix.profs_available == 0 || (self.fix.profs_available == 2 && v == 3) {
                return Err(EcError::InvalidInput);
            }
            let bits: i32 = if v == 1 {
                0xa0
            } else if v == 3 {
                0x10
            } else {
                0
            };
            self.st.reg_0751 = (self.st.reg_0751 & !0xb0i32) | bits;
            self.st.last_perf = v;
            Ok(())
        } else {
            Ok(())
        }
    }

    fn noarg(&mut self, req: u64) -> (r: Result<(), EcError>) {
        if req == W_UW_FANAUTO {
            self.st.auto = true;
        }
        Ok(())
    }

    fn version(&self) -> (r: Result<String, EcError>) {
        Ok("0.3.9-sim".to_string())
    }
}

/// A simulated board behind the guard: writes pass only where the model is validated.
pub fn mock(fix: ModelFixture) -> (d: TuxedoIo<MockEc>)
    ensures
        d.ec() == (MockEc { fix, st: EcState::fresh() }),
        d.writable() == validated(fix.model_id),
{
    TuxedoIo::from_backend(MockEc::new(fix))
}

/// A simulated board with the guard open, whatever its model.
pub fn mock_unchecked(fix: ModelFixture) -> (d: TuxedoIo<MockEc>)
    ensures
        d.ec() == (MockEc { fix, st: EcState::fresh() }),
        d.writable(),
{
    TuxedoIo::from_backend_unchecked(MockEc::new(fix))
}

impl TuxedoIo<MockEc> {
    /// The registers of the simulated EC, to look at and to change as the EC itself would.
    pub fn registers(&mut self) -> (r: &mut EcState)
        ensures
            *r == old(self).ec().st,
            final(self).ec() == (MockEc { fix: old(self).ec().fix, st: *final(r) }),
            final(self).writable() == old(self).writable(),
    {
        &mut self.backend_mut().st
    }
}

/// The simulated EC keeps EC RAM 0x0751.
pub proof fn simulated_ec_keeps_mode(ec: MockEc)
    ensures
        keeps_mode(ec),
{
}

/// Of the simulated boards only the first is validated.
pub proof fn one_board_validated(i: int)
    requires
        0 <= i < model_table().len(),
    ensures
        validated(model_table()[i].model_id) <==> i == 0,
{
}

/// While the EC owns the fans, a raw fan write changes nothing, though it succeeds.
pub proof fn owner_drops_fan_writes(pre: MockEc, v: i32, post: MockEc, r: Result<(), EcError>)
    requires
        pre.st.reg_0751 & FAN_OWNERSHIP_BIT != 0,
        pre.may_write(W_UW_FANSPEED, v, post, r) || pre.may_write(W_UW_FANSPEED2, v, post, r),
    ensures
        post == pre,
        r is Ok,
{
}

/// Where the guard is open, clearing the ownership bit says whether it was set, clears it, and
/// keeps every other bit and everything else. Doing it again finds it clear and changes nothing.
pub proof fn clearing_ownership_once(
    pre: TuxedoIo<MockEc>,
    mid: TuxedoIo<MockEc>,
    a: Result<bool, EcError>,
    post: TuxedoIo<MockEc>,
    b: Result<bool, EcError>,
)
    requires
        pre.writable(),
        pre.ensured_manual(mid, a),
        mid.ensured_manual(post, b),
    ensures
        a == Ok::<bool, EcError>(pre.ec().st.reg_0751 & FAN_OWNERSHIP_BIT != 0),
        a == Ok::<bool, EcError>(false) ==> mid == pre,
        mid.ec() == (MockEc {
            fix: pre.ec().fix,
            st: EcState {
                reg_0751: pre.ec().st.reg_0751 & !FAN_OWNERSHIP_BIT,
                ..pre.ec().st
            },
        }),
        mid.writable(),
        b == Ok::<bool, EcError>(false),
        post == mid,
{
    let m = pre.ec().st.reg_0751;
    assert(m & 0x40i32 == 0 ==> m & !0x40i32 == m) by (bit_vector);
    assert((m & !0x40i32) & 0x40i32 == 0) by (bit_vector);
}

/// Where the guard is open, setting the fans always lands, even on an EC that owned them: the
/// ownership bit ends up clear, both fans run at the requested duty, and nothing else changes.
pub proof fn set_fans_lands(
    pre: TuxedoIo<MockEc>,
    pct: i32,
    post: TuxedoIo<MockEc>,
    r: Result<(), EcError>,
)
    requires
        pre.writable(),
        pre.set_fans(pct, post, r),
    ensures
        r is Ok,
        post.ec().st.reg_0751 & FAN_OWNERSHIP_BIT == 0,
        post.ec() == (MockEc {
            fix: pre.ec().fix,
            st: EcState {
                reg_0751: pre.ec().st.reg_0751 & !FAN_OWNERSHIP_BIT,
                fan1_raw: clamped(raw_of_pct(pct as int), 0, pre.ec().fix.fan_max as int) as i32,
                fan2_raw: clamped(raw_of_pct(pct as int), 0, pre.ec().fix.fan_max as int) as i32,
                ..pre.ec().st
            },
        }),
{
    let m = pre.ec().st.reg_0751;
    assert(m & 0x40i32 == 0 ==> m & !0x40i32 == m) by (bit_vector);
    assert((m & !0x40i32) & 0x40i32 == 0) by (bit_vector);
    let (s1, a) = choose|s1: TuxedoIo<MockEc>, a: Result<bool, EcError>|
        #![trigger pre.ensured_manual(s1, a)]
        pre.ensured_manual(s1, a) && match a {
            Err(e) => post == s1 && r == Err::<(), EcError>(e),
            Ok(_) => exists|s2: TuxedoIo<MockEc>, b: Result<(), EcError>| #[trigger]
                s1.wrote(W_UW_FANSPEED, raw_of_pct(pct as int) as i32, s2, b) && match b {
                    Err(e) => post == s2 && r == Err::<(), EcError>(e),
                    Ok(_) => s2.wrote(W_UW_FANSPEED2, raw_of_pct(pct as int) as i32, post, r),
                },
        };
    assert(s1.ec().st.reg_0751 == m & !FAN_OWNERSHIP_BIT);
    assert(a is Ok);
}

/// A duty that was set is read back as it was asked for, on a board with the usual raw scale.
pub proof fn duty_reads_back(
    pre: TuxedoIo<MockEc>,
    pct: i32,
    post: TuxedoIo<MockEc>,
    r: Result<(), EcError>,
)
    requires
        pre.writable(),
        pre.ec().fix.fan_max >= FAN_MAX,
        0 <= pct <= 100,
        pre.set_fans(pct, post, r),
    ensures
        r is Ok,
        pct_of_raw(post.ec().value(R_UW_FANSPEED) as int) == pct,
        pct_of_raw(post.ec().value(R_UW_FANSPEED2) as int) == pct,
{
    set_fans_lands(pre, pct, post, r);
    scaling_round_trip(pct as int);
}

/// After a tick on a board that may be written to, the EC does not own the fans, and both run
/// at least at the safety floor of the hotter temperature, up to what the board can do.
pub proof fn tick_keeps_floor(
    pre: TuxedoIo<MockEc>,
    st: ControlView,
    curve: Seq<(i32, i32)>,
    hyst: i32,
    tuning: Tuning,
    manual: Option<i32>,
    post: TuxedoIo<MockEc>,
    next: ControlView,
    t: Tick,
)
    requires
        pre.writable(),
        pre.ec().fix.fan_max >= 0,
        ticked(pre, st, curve, hyst, tuning, manual, post, next, t),
    ensures
        ({
            let ec = pre.ec().st;
            let hot = max(ec.cpu_temp as int, ec.gpu_temp as int);
            let least = min(raw_of_pct(floor_at(hot)), pre.ec().fix.fan_max as int);
            &&& post.ec().st.reg_0751 & FAN_OWNERSHIP_BIT == 0
            &&& post.ec().st.fan1_raw >= least
            &&& post.ec().st.fan2_raw >= least
            &&& t.changed == (t.decision.target != st.commanded)
        }),
{
    let target = t.decision.target;
    let r = choose|r: Result<(), EcError>| #[trigger]
        pre.set_fans(target, post, r) && t.changed == (r is Ok && target != st.commanded);
    set_fans_lands(pre, target, post, r);
    let ec = pre.ec().st;
    let hot = max(ec.cpu_temp as int, ec.gpu_temp as int);
    assert(t.temp == hot);
    raw_monotone(floor_at(hot), target as int);
}

/// A performance profile never changes who owns the fans, and it sets exactly the bits of
/// that profile.
pub proof fn profile_keeps_ownership(pre: MockEc, v: i32, post: MockEc, r: Result<(), EcError>)
    requires
        pre.may_write(W_UW_PERF_PROF, v, post, r),
    ensures
        post.st.reg_0751 & FAN_OWNERSHIP_BIT == pre.st.reg_0751 & FAN_OWNERSHIP_BIT,
        post.st.fan1_raw == pre.st.fan1_raw,
        post.st.fan2_raw == pre.st.fan2_raw,
        r is Ok ==> post.st.reg_0751 & 0xb0 == perf_bits(v) && post.st.last_perf == v,
{
    let m = pre.st.reg_0751;
    assert(((m & !0xb0i32) | 0xa0i32) & 0x40i32 == m & 0x40i32) by (bit_vector);
    assert(((m & !0xb0i32) | 0x10i32) & 0x40i32 == m & 0x40i32) by (bit_vector);
    assert(((m & !0xb0i32) | 0i32) & 0x40i32 == m & 0x40i32) by (bit_vector);
    assert(((m & !0xb0i32) | 0xa0i32) & 0xb0i32 == 0xa0i32) by (bit_vector);
    assert(((m & !0xb0i32) | 0x10i32) & 0xb0i32 == 0x10i32) by (bit_vector);
    assert(((m & !0xb0i32) | 0i32) & 0xb0i32 == 0i32) by (bit_vector);
}

/// A board refuses the profiles that it does not expose and changes nothing: one without
/// profiles refuses all, one with two refuses `Overboost` alone.
pub proof fn profile_enforced(
    pre: TuxedoIo<MockEc>,
    p: PerfProfile,
    post: TuxedoIo<MockEc>,
    r: Result<(), EcError>,
)
    requires
        pre.writable(),
        pre.wrote(W_UW_PERF_PROF, p.number(), post, r),
    ensures
        r is Err <==> (pre.ec().fix.profs_available == 0 || (pre.ec().fix.profs_available == 2
            && p == PerfProfile::Overboost)),
        r is Err ==> r == Err::<(), EcError>(EcError::InvalidInput) && post.ec() == pre.ec(),
{
}

/// Reads give the registers and the properties of the board; a request that the EC does not know
/// gives zero.
pub proof fn reads_give_registers(ec: MockEc, req: u64, r: Result<i32, EcError>)
    requires
        ec.may_read(req, r),
    ensures
        r is Ok,
        req == R_UW_FAN_TEMP ==> r == Ok::<i32, EcError>(ec.st.cpu_temp),
        req == R_UW_FAN_TEMP2 ==> r == Ok::<i32, EcError>(ec.st.gpu_temp),
        req == R_UW_FANSPEED ==> r == Ok::<i32, EcError>(ec.st.fan1_raw),
        req == R_UW_FANSPEED2 ==> r == Ok::<i32, EcError>(ec.st.fan2_raw),
        req == R_UW_MODE ==> r == Ok::<i32, EcError>(ec.st.reg_0751),
        req == R_UW_MODEL_ID ==> r == Ok::<i32, EcError>(ec.fix.model_id),
        req == R_UW_FANS_MIN_SPEED ==> r == Ok::<i32, EcError>(ec.fix.fans_min_speed),
        req == R_UW_PROFS_AVAILABLE ==> r == Ok::<i32, EcError>(ec.fix.profs_available),
        req == R_HWCHECK_UW ==> (r == Ok::<i32, EcError>(1) <==> ec.fix.is_uniwill),
        req == R_UW_FANS_OFF_AVAILABLE ==> (r == Ok::<i32, EcError>(1) <==> ec.fix.fans_off),
        req != R_UW_FAN_TEMP && req != R_UW_FAN_TEMP2 && req != R_UW_FANSPEED && req
            != R_UW_FANSPEED2 && req != R_UW_MODE && req != R_UW_MODEL_ID && req
            != R_UW_FANS_MIN_SPEED && req != R_UW_PROFS_AVAILABLE && req != R_HWCHECK_UW && req
            != R_UW_FANS_OFF_AVAILABLE ==> r == Ok::<i32, EcError>(0),
{
}

/// While the EC does not own the fans, a raw duty within the board's range is what the fan then
/// runs at, one outside it the nearest inside, and nothing else changes.
pub proof fn free_fans_take_writes(
    pre: MockEc,
    req: u64,
    v: i32,
    post: MockEc,
    r: Result<(), EcError>,
    x: int,
)
    requires
        pre.st.reg_0751 & FAN_OWNERSHIP_BIT == 0,
        req == W_UW_FANSPEED || req == W_UW_FANSPEED2,
        pre.may_write(req, v, post, r),
        0 <= x <= pre.fix.fan_max,
    ensures
        r is Ok,
        ({
            let fan = if req == W_UW_FANSPEED {
                post.st.fan1_raw
            } else {
                post.st.fan2_raw
            };
            &&& 0 <= fan <= pre.fix.fan_max
            &&& !(v <= x < fan)
            &&& !(fan < x <= v)
        }),
        req == W_UW_FANSPEED ==> post.st.fan2_raw == pre.st.fan2_raw,
        req == W_UW_FANSPEED2 ==> post.st.fan1_raw == pre.st.fan1_raw,
        post.fix == pre.fix,
        post.st.reg_0751 == pre.st.reg_0751,
        post.st.auto == pre.st.auto,
        post.st.cpu_temp == pre.st.cpu_temp,
        post.st.gpu_temp == pre.st.gpu_temp,
        post.st.last_perf == pre.st.last_perf,
{
    clamping_is_nearest(v as int, 0, pre.fix.fan_max as int, x);
}

/// EC RAM 0x0751 takes what is written to it, and nothing else changes. A write that the EC does
/// not know changes nothing.
pub proof fn register_takes_writes(
    pre: MockEc,
    req: u64,
    v: i32,
    post: MockEc,
    r: Result<(), EcError>,
)
    requires
        pre.may_write(req, v, post, r),
    ensures
        req == W_UW_MODE ==> r is Ok && post.st.reg_0751 == v && post.st.fan1_raw
            == pre.st.fan1_raw && post.st.fan2_raw == pre.st.fan2_raw && post.st.auto
            == pre.st.auto && post.st.last_perf == pre.st.last_perf,
        req != W_UW_MODE && req != W_UW_FANSPEED && req != W_UW_FANSPEED2 && req != W_UW_PERF_PROF
            ==> r is Ok && post == pre,
        post.fix == pre.fix,
        post.st.cpu_temp == pre.st.cpu_temp,
        post.st.gpu_temp == pre.st.gpu_temp,
{
}

/// A profile that the board exposes sets its bits of EC RAM 0x0751 and clears those of the
/// others: 0xa0 for the first, 0x10 for the third, none for any other. Every other bit is kept.
pub proof fn profile_bits(pre: MockEc, v: i32, post: MockEc, r: Result<(), EcError>)
    requires
        pre.may_write(W_UW_PERF_PROF, v, post, r),
    ensures
        r is Ok && v == 1 ==> post.st.reg_0751 & 0xb0 == 0xa0,
        r is Ok && v == 3 ==> post.st.reg_0751 & 0xb0 == 0x10,
        r is Ok && v != 1 && v != 3 ==> post.st.reg_0751 & 0xb0 == 0,
        r is Ok ==> post.st.reg_0751 & !0xb0i32 == pre.st.reg_0751 & !0xb0i32,
        r is Ok ==> post.st.last_perf == v,
        r is Ok <==> !(pre.fix.profs_available == 0 || (pre.fix.profs_available == 2 && v == 3)),
        r is Err ==> post == pre && r == Err::<(), EcError>(EcError::InvalidInput),
        post.st.auto == pre.st.auto,
        post.st.fan1_raw == pre.st.fan1_raw,
        post.st.fan2_raw == pre.st.fan2_raw,
{
    let m = pre.st.reg_0751;
    assert(((m & !0xb0i32) | 0xa0i32) & 0xb0i32 == 0xa0i32 && ((m & !0xb0i32) | 0x10i32) & 0xb0i32
        == 0x10i32 && ((m & !0xb0i32) | 0i32) & 0xb0i32 == 0i32) by (bit_vector);
    assert(((m & !0xb0i32) | 0xa0i32) & !0xb0i32 == m & !0xb0i32 && ((m & !0xb0i32) | 0x10i32)
        & !0xb0i32 == m & !0xb0i32 && ((m & !0xb0i32) | 0i32) & !0xb0i32 == m & !0xb0i32)
        by (bit_vector);
}

/// Handing the fans back is noted by the EC, and changes nothing else; no other call changes
/// anything.
pub proof fn handing_back_is_noted(pre: MockEc, req: u64, post: MockEc, r: Result<(), EcError>)
    requires
        pre.may_call(req, post, r),
    ensures
        r is Ok,
        req == W_UW_FANAUTO ==> post.st.auto,
        req != W_UW_FANAUTO ==> post == pre,
        post.fix == pre.fix,
        post.st.reg_0751 == pre.st.reg_0751,
        post.st.fan1_raw == pre.st.fan1_raw,
        post.st.fan2_raw == pre.st.fan2_raw,
        post.st.last_perf == pre.st.last_perf,
{
}

/// Setting the fans to a percentage writes two raw steps a point to both, and a tick does so with
/// the duty that it decided, by the hotter of the two temperatures of the EC.
pub proof fn tick_drives_the_fans(
    pre: TuxedoIo<MockEc>,
    st: ControlView,
    curve: Seq<(i32, i32)>,
    hyst: i32,
    tuning: Tuning,
    manual: Option<i32>,
    post: TuxedoIo<MockEc>,
    next: ControlView,
    t: Tick,
)
    requires
        pre.writable(),
        pre.ec().fix.fan_max >= 0xc8,
        ticked(pre, st, curve, hyst, tuning, manual, post, next, t),
        0 <= t.decision.target <= 100,
    ensures
        post.ec().st.fan1_raw == 2 * t.decision.target,
        post.ec().st.fan2_raw == 2 * t.decision.target,
        t.cpu_fan == t.decision.target,
        t.gpu_fan == t.decision.target,
        t.cpu_temp == pre.ec().st.cpu_temp,
        t.gpu_temp == pre.ec().st.gpu_temp,
        t.temp >= pre.ec().st.cpu_temp && t.temp >= pre.ec().st.gpu_temp,
        t.temp == pre.ec().st.cpu_temp || t.temp == pre.ec().st.gpu_temp,
        t.mode == pre.ec().st.reg_0751 & !FAN_OWNERSHIP_BIT,
        post.ec().st.reg_0751 == pre.ec().st.reg_0751 & !FAN_OWNERSHIP_BIT,
{
    let target = t.decision.target;
    let r = choose|r: Result<(), EcError>| #[trigger]
        pre.set_fans(target, post, r) && t.changed == (r is Ok && target != st.commanded);
    set_fans_lands(pre, target, post, r);
    raw_is_proportional(target as int);
    pct_is_nearest(2 * target);
}

/// A fresh EC is cool, idle, and owns nothing.
pub proof fn fresh_ec_is_idle()
    ensures
        EcState::fresh().reg_0751 == 0,
        EcState::fresh().fan1_raw == 0 && EcState::fresh().fan2_raw == 0,
        !EcState::fresh().auto,
        EcState::fresh().cpu_temp == 45 && EcState::fresh().gpu_temp == 0,
        EcState::fresh().last_perf == 0,
{
}

/// The reference board comes first; no two boards share a model id, and every board exposes no,
/// two or three profiles on one of two raw scales.
pub proof fn boards_are_told_apart(i: int, j: int)
    requires
        0 <= i < model_table().len(),
        0 <= j < model_table().len(),
    ensures
        ({
            let t = model_table();
            let p = t[i].profs_available;
            &&& t.len() == 9
            &&& i != j ==> t[i].model_id != t[j].model_id
            &&& p == 0 || p == 2 || p == 3
            &&& t[i].fan_max == 0xc8 || t[i].fan_max == 0xff
            &&& t[0].model_id == 0x1a && t[0].is_uniwill && t[0].fan_max == 0xc8 && t[0].fans_off
                && t[0].fans_min_speed == 25 && t[0].profs_available == 3 && t[0].charging
            &&& t[i].kbd == KbdBacklight::Absent <==> t[i].kbd_max_brightness == 0
        }),
{
}

/// What a simulated board has follows from its model id: the raw scale, whether the fans stop,
/// the profiles, charging, and the backlight with its highest brightness.
pub proof fn boards_have_by_id(i: int)
    requires
        0 <= i < model_table().len(),
    ensures
        ({
            let m = model_table()[i];
            let id = m.model_id;
            &&& id == 0x1a || id == 0x09 || id == 0x12 || id == 0x13 || id == 0x14 || id == 0x17
                || id == 0x2a || id == 0x2b || id == 0
            &&& m.is_uniwill <==> id != 0
            &&& m.fan_max == 0xff <==> id == 0x12 || id == 0
            &&& m.fans_off <==> id != 0x2a
            &&& id == 0x2a ==> m.fans_min_speed == 30
            &&& id == 0 ==> m.fans_min_speed == 20
            &&& id != 0x2a && id != 0 ==> m.fans_min_speed == 25
            &&& m.profs_available == 0 <==> id == 0x2b || id == 0
            &&& m.profs_available == 2 <==> id == 0x09 || id == 0x2a
            &&& m.charging <==> id != 0x09 && id != 0x2a && id != 0
            &&& m.kbd == KbdBacklight::Absent <==> id == 0x2b
            &&& m.kbd == KbdBacklight::OneZoneRgb <==> id == 0x09 || id == 0x2a
            &&& m.kbd == KbdBacklight::PerKeyRgb <==> id == 0x17 || id == 0
            &&& m.kbd == KbdBacklight::White ==> m.kbd_max_brightness == 4
            &&& m.kbd == KbdBacklight::OneZoneRgb || m.kbd == KbdBacklight::PerKeyRgb
                ==> m.kbd_max_brightness == 255
        }),
{
}

/// The simulated EC tells its own version.
pub proof fn version_is_simulated(ec: MockEc, r: Result<Seq<char>, EcError>)
    requires
        ec.may_version(r),
    ensures
        r == Ok::<Seq<char>, EcError>("0.3.9-sim"@),
{
}

} // verus!
