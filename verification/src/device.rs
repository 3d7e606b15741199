//! The EC behind `/dev/tuxedo_io`, and the guard that keeps unvalidated boards read-only.

use crate::ioctl::{
    R_HWCHECK_UW, R_UW_FANSPEED, R_UW_FANSPEED2, R_UW_FANS_MIN_SPEED, R_UW_FANS_OFF_AVAILABLE,
    R_UW_FAN_TEMP, R_UW_FAN_TEMP2, R_UW_MODE, R_UW_MODEL_ID, R_UW_PROFS_AVAILABLE, W_UW_FANAUTO,
    W_UW_FANSPEED, W_UW_FANSPEED2, W_UW_MODE, W_UW_PERF_PROF,
};
use crate::perf::PerfProfile;
use crate::scale::{
    pct_is_nearest, pct_of_raw, pct_to_raw, raw_is_proportional, raw_of_pct, raw_to_pct, FAN_MAX,
};
use vstd::prelude::*;
use vstd::utf8::{decode_utf8, valid_utf8};

verus! {

/// Bit of EC RAM 0x0751 that marks the EC as owner of the fans. While it is set, fan
/// writes are dropped.
pub const FAN_OWNERSHIP_BIT: i32 = 0x40;

/// Why a request to the EC failed.
#[derive(Clone, Copy, Debug, PartialEq, Eq, Structural)]
pub enum EcError {
    /// The board is not validated, so nothing may be written to it.
    PermissionDenied,
    /// The EC does not take the value.
    InvalidInput,
    /// The operating system refused the call with this error number.
    Os(i32),
}

/// A board on which fan control has been exercised.
#[derive(Clone, Copy, Debug)]
pub struct KnownModel {
    pub model_id: i32,
    pub name: &'static str,
    /// Raw duty that stands for 100 % on this board.
    pub fan_max: i32,
}

/// Whether `model_id` is a validated board.
pub open spec fn validated(model_id: i32) -> bool {
    model_id == 0x1a
}

/// The registry entry of a board, where it is validated.
pub fn known_model(model_id: i32) -> (r: Option<KnownModel>)
    ensures
        r is Some == validated(model_id),
        r is Some ==> r->0.model_id == model_id && r->0.fan_max == FAN_MAX && r->0.name@
            == "InfinityBook Pro AMD Gen9 (GXxHRXx)"@,
{
    if model_id == 0x1a {
        Some(
            KnownModel {
                model_id: 0x1a,
                name: "InfinityBook Pro AMD Gen9 (GXxHRXx)",
                fan_max: FAN_MAX,
            },
        )
    } else {
        None
    }
}

/// What the EC says a board can do.
#[derive(Clone, Copy, Debug, PartialEq, Eq, Structural)]
pub struct Caps {
    pub model_id: i32,
    pub fans_off: bool,
    pub fans_min_speed: i32,
    pub profs_available: i32,
}

/// The text that a fallible call returned.
pub open spec fn text_result(r: Result<String, EcError>) -> Result<Seq<char>, EcError> {
    match r {
        Ok(s) => Ok(s@),
        Err(e) => Err(e),
    }
}

/// An EC that answers requests.
///
/// An implementation says with the four relations what it may answer and what a write may
/// turn it into. One that says nothing, such as hardware, may answer anything.
pub trait EcBackend: Sized {
    /// Whether a read of `req` may be answered with `r`.
    open spec fn may_read(&self, req: u64, r: Result<i32, EcError>) -> bool {
        true
    }

    /// Whether a write of `v` to `req` may be answered with `r` and leave `post` behind.
    open spec fn may_write(&self, req: u64, v: i32, post: Self, r: Result<(), EcError>) -> bool {
        true
    }

    /// Whether a call of `req` may be answered with `r` and leave `post` behind.
    open spec fn may_call(&self, req: u64, post: Self, r: Result<(), EcError>) -> bool {
        true
    }

    /// Whether the module version may be answered with `r`.
    open spec fn may_version(&self, r: Result<Seq<char>, EcError>) -> bool {
        true
    }

    /// Reads the value of `req`.
    fn rd(&self, req: u64) -> (r: Result<i32, EcError>)
        ensures
            self.may_read(req, r),
    ;

    /// Writes `v` to `req`.
    fn wr(&mut self, req: u64, v: i32) -> (r: Result<(), EcError>)
        ensures
            old(self).may_write(req, v, *final(self), r),
    ;

    /// Makes the call `req`, which carries no value.
    fn noarg(&mut self, req: u64) -> (r: Result<(), EcError>)
        ensures
            old(self).may_call(req, *final(self), r),
    ;

    /// The version of the kernel module.
    fn version(&self) -> (r: Result<String, EcError>)
        ensures
            self.may_version(text_result(r)),
    ;
}

/// Handle to an EC. Writes pass only where the guard is open.
pub struct TuxedoIo<B: EcBackend> {
    backend: B,
    write_ok: bool,
}

impl<B: EcBackend> TuxedoIo<B> {
    /// The EC behind the handle.
    pub closed spec fn ec(&self) -> B {
        self.backend
    }

    /// Whether writes pass.
    pub closed spec fn writable(&self) -> bool {
        self.write_ok
    }

    /// A write of `v` to `req` through the guard: refused without touching the EC where the
    /// guard is closed.
    pub open spec fn wrote(&self, req: u64, v: i32, post: Self, r: Result<(), EcError>) -> bool {
        &&& post.writable() == self.writable()
        &&& if self.writable() {
            self.ec().may_write(req, v, post.ec(), r)
        } else {
            post.ec() == self.ec() && r == Err::<(), EcError>(EcError::PermissionDenied)
        }
    }

    /// A call of `req` through the guard.
    pub open spec fn called(&self, req: u64, post: Self, r: Result<(), EcError>) -> bool {
        &&& post.writable() == self.writable()
        &&& if self.writable() {
            self.ec().may_call(req, post.ec(), r)
        } else {
            post.ec() == self.ec() && r == Err::<(), EcError>(EcError::PermissionDenied)
        }
    }

    /// The ownership bit was read and, where it was set, cleared.
    pub open spec fn ensured_manual(&self, post: Self, r: Result<bool, EcError>) -> bool {
        exists|m: Result<i32, EcError>| #[trigger]
            self.ec().may_read(R_UW_MODE, m) && match m {
                Err(e) => post == *self && r == Err::<bool, EcError>(e),
                Ok(mode) => if mode & FAN_OWNERSHIP_BIT != 0 {
                    exists|w: Result<(), EcError>| #[trigger]
                        self.wrote(W_UW_MODE, mode & !FAN_OWNERSHIP_BIT, post, w) && match w {
                            Ok(_) => r == Ok::<bool, EcError>(true),
                            Err(e) => r == Err::<bool, EcError>(e),
                        }
                } else {
                    post == *self && r == Ok::<bool, EcError>(false)
                },
            }
    }

    /// The ownership bit was cleared, then both fans were set to the raw duty of `pct`, up to
    /// the first request that failed.
    pub open spec fn set_fans(&self, pct: i32, post: Self, r: Result<(), EcError>) -> bool {
        exists|s1: Self, a: Result<bool, EcError>| #[trigger]
            self.ensured_manual(s1, a) && match a {
                Err(e) => post == s1 && r == Err::<(), EcError>(e),
                Ok(_) => exists|s2: Self, b: Result<(), EcError>| #[trigger]
                    s1.wrote(W_UW_FANSPEED, raw_of_pct(pct as int) as i32, s2, b) && match b {
                        Err(e) => post == s2 && r == Err::<(), EcError>(e),
                        Ok(_) => s2.wrote(
                            W_UW_FANSPEED2,
                            raw_of_pct(pct as int) as i32,
                            post,
                            r,
                        ),
                    },
            }
    }

    /// A handle whose guard is open only where the EC names a validated board.
    pub fn from_backend(backend: B) -> (d: Self)
        ensures
            d.ec() == backend,
            exists|a: Result<i32, EcError>| #[trigger]
                backend.may_read(R_UW_MODEL_ID, a) && d.writable() == (a is Ok && validated(a->Ok_0)),
    {
        let a = backend.rd(R_UW_MODEL_ID);
        let write_ok = match a {
            Ok(id) => known_model(id).is_some(),
            Err(_) => false,
        };
        TuxedoIo { backend, write_ok }
    }

    /// A handle whose guard is open on every board, for validating a new one.
    pub fn from_backend_unchecked(backend: B) -> (d: Self)
        ensures
            d.ec() == backend,
            d.writable(),
    {
        TuxedoIo { backend, write_ok: true }
    }

    /// The EC itself, to read from.
    pub fn backend(&self) -> (b: &B)
        ensures
            *b == self.ec(),
    {
        &self.backend
    }

    /// The EC itself, past the guard.
    pub(crate) fn backend_mut(&mut self) -> (b: &mut B)
        ensures
            *b == old(self).ec(),
            final(self).ec() == *final(b),
            final(self).writable() == old(self).writable(),
    {
        &mut self.backend
    }

    /// Whether writes pass the guard.
    pub fn write_allowed(&self) -> (r: bool)
        ensures
            r == self.writable(),
    {
        self.write_ok
    }

    /// Reads the value of `req`, on every board.
    pub fn rd(&self, req: u64) -> (r: Result<i32, EcError>)
        ensures
            self.ec().may_read(req, r),
    {
        self.backend.rd(req)
    }

    /// Writes `v` to `req`, where the guard is open.
    pub fn wr(&mut self, req: u64, v: i32) -> (r: Result<(), EcError>)
        ensures
            old(self).wrote(req, v, *final(self), r),
    {
        if self.write_ok {
            self.backend.wr(req, v)
        } else {
            Err(EcError::PermissionDenied)
        }
    }

    /// Makes the call `req`, where the guard is open.
    pub fn noarg(&mut self, req: u64) -> (r: Result<(), EcError>)
        ensures
            old(self).called(req, *final(self), r),
    {
        if self.write_ok {
            self.backend.noarg(req)
        } else {
            Err(EcError::PermissionDenied)
        }
    }

    /// The version of the kernel module.
    pub fn version(&self) -> (r: Result<String, EcError>)
        ensures
            self.ec().may_version(text_result(r)),
    {
        self.backend.version()
    }

    fn rd_flag(&self, req: u64) -> (r: Result<bool, EcError>)
        ensures
            exists|a: Result<i32, EcError>| #[trigger]
                self.ec().may_read(req, a) && r == flag(a),
    {
        match self.rd(req) {
            Ok(v) => Ok(v == 1),
            Err(e) => Err(e),
        }
    }

    fn rd_pct(&self, req: u64) -> (r: Result<i32, EcError>)
        ensures
            exists|a: Result<i32, EcError>| #[trigger]
                self.ec().may_read(req, a) && r == percent(a),
    {
        match self.rd(req) {
            Ok(v) => Ok(raw_to_pct(v)),
            Err(e) => Err(e),
        }
    }

    /// Whether this is Uniwill hardware.
    pub fn is_uniwill(&self) -> (r: Result<bool, EcError>)
        ensures
            exists|a: Result<i32, EcError>| #[trigger]
                self.ec().may_read(R_HWCHECK_UW, a) && r == flag(a),
    {
        self.rd_flag(R_HWCHECK_UW)
    }

    /// The board's model id.
    pub fn model_id(&self) -> (r: Result<i32, EcError>)
        ensures
            self.ec().may_read(R_UW_MODEL_ID, r),
    {
        self.rd(R_UW_MODEL_ID)
    }

    /// Whether the fans may be switched off.
    pub fn fans_off_available(&self) -> (r: Result<bool, EcError>)
        ensures
            exists|a: Result<i32, EcError>| #[trigger]
                self.ec().may_read(R_UW_FANS_OFF_AVAILABLE, a) && r == flag(a),
    {
        self.rd_flag(R_UW_FANS_OFF_AVAILABLE)
    }

    /// Lowest duty in percent at which a fan runs.
    pub fn fans_min_speed(&self) -> (r: Result<i32, EcError>)
        ensures
            self.ec().may_read(R_UW_FANS_MIN_SPEED, r),
    {
        self.rd(R_UW_FANS_MIN_SPEED)
    }

    /// Number of performance profiles.
    pub fn profs_available(&self) -> (r: Result<i32, EcError>)
        ensures
            self.ec().may_read(R_UW_PROFS_AVAILABLE, r),
    {
        self.rd(R_UW_PROFS_AVAILABLE)
    }

    /// Model id and capabilities together; the first read that fails decides.
    pub fn caps(&self) -> (r: Result<Caps, EcError>)
        ensures
            exists|a: Result<i32, EcError>| #[trigger]
                self.ec().may_read(R_UW_MODEL_ID, a) && match a {
                    Err(e) => r == Err::<Caps, EcError>(e),
                    Ok(model_id) => exists|b: Result<i32, EcError>| #[trigger]
                        self.ec().may_read(R_UW_FANS_OFF_AVAILABLE, b) && match b {
                            Err(e) => r == Err::<Caps, EcError>(e),
                            Ok(off) => exists|c: Result<i32, EcError>| #[trigger]
                                self.ec().may_read(R_UW_FANS_MIN_SPEED, c) && match c {
                                    Err(e) => r == Err::<Caps, EcError>(e),
                                    Ok(fans_min_speed) => exists|d: Result<i32, EcError>| #[trigger]
                                        self.ec().may_read(R_UW_PROFS_AVAILABLE, d) && match d {
                                            Err(e) => r == Err::<Caps, EcError>(e),
                                            Ok(profs_available) => r == Ok::<Caps, EcError>(
                                                (Caps {
                                                    model_id,
                                                    fans_off: off == 1,
                                                    fans_min_speed,
                                                    profs_available,
                                                }),
                                            ),
                                        },
                                },
                        },
                },
    {
        let model_id = match self.model_id() {
            Ok(v) => v,
            Err(e) => {
                return Err(e);
            },
        };
        let fans_off = match self.fans_off_available() {
            Ok(v) => v,
            Err(e) => {
                return Err(e);
            },
        };
        let fans_min_speed = match self.fans_min_speed() {
            Ok(v) => v,
            Err(e) => {
                return Err(e);
            },
        };
        match self.profs_available() {
            Ok(profs_available) => Ok(
                Caps { model_id, fans_off, fans_min_speed, profs_available },
            ),
            Err(e) => Err(e),
        }
    }

    /// CPU temperature in degrees Celsius.
    pub fn cpu_temp(&self) -> (r: Result<i32, EcError>)
        ensures
            self.ec().may_read(R_UW_FAN_TEMP, r),
    {
        self.rd(R_UW_FAN_TEMP)
    }

    /// GPU temperature in degrees Celsius.
    pub fn gpu_temp(&self) -> (r: Result<i32, EcError>)
        ensures
            self.ec().may_read(R_UW_FAN_TEMP2, r),
    {
        self.rd(R_UW_FAN_TEMP2)
    }

    /// CPU fan duty in percent.
    pub fn cpu_fan_pct(&self) -> (r: Result<i32, EcError>)
        ensures
            exists|a: Result<i32, EcError>| #[trigger]
                self.ec().may_read(R_UW_FANSPEED, a) && r == percent(a),
    {
        self.rd_pct(R_UW_FANSPEED)
    }

    /// GPU fan duty in percent.
    pub fn gpu_fan_pct(&self) -> (r: Result<i32, EcError>)
        ensures
            exists|a: Result<i32, EcError>| #[trigger]
                self.ec().may_read(R_UW_FANSPEED2, a) && r == percent(a),
    {
        self.rd_pct(R_UW_FANSPEED2)
    }

    /// EC RAM 0x0751.
    pub fn mode(&self) -> (r: Result<i32, EcError>)
        ensures
            self.ec().may_read(R_UW_MODE, r),
    {
        self.rd(R_UW_MODE)
    }

    /// Clears the ownership bit so that fan writes are honoured. Returns whether the EC had
    /// owned the fans.
    pub fn ensure_manual(&mut self) -> (r: Result<bool, EcError>)
        ensures
            old(self).ensured_manual(*final(self), r),
    {
        let m = match self.mode() {
            Ok(m) => m,
            Err(e) => {
                return Err(e);
            },
        };
        if m & FAN_OWNERSHIP_BIT != 0 {
            match self.wr(W_UW_MODE, m & !FAN_OWNERSHIP_BIT) {
                Ok(_) => Ok(true),
                Err(e) => Err(e),
            }
        } else {
            Ok(false)
        }
    }

    /// Sets both fans to a duty in percent, clearing the ownership bit first.
    pub fn set_fan_pct(&mut self, pct: i32) -> (r: Result<(), EcError>)
        ensures
            old(self).set_fans(pct, *final(self), r),
    {
        let a = self.ensure_manual();
        let ghost s1 = *self;
        if let Err(e) = a {
            return Err(e);
        }
        let raw = pct_to_raw(pct);
        let b = self.wr(W_UW_FANSPEED, raw);
        let ghost s2 = *self;
        assert(s1.wrote(W_UW_FANSPEED, raw_of_pct(pct as int) as i32, s2, b));
        if let Err(e) = b {
            return Err(e);
        }
        self.wr(W_UW_FANSPEED2, raw)
    }

    /// Selects a performance profile.
    pub fn set_perf(&mut self, p: PerfProfile) -> (r: Result<(), EcError>)
        ensures
            old(self).wrote(W_UW_PERF_PROF, p.number(), *final(self), r),
    {
        self.wr(W_UW_PERF_PROF, p.code())
    }

    /// Hands the fans back to the EC.
    pub fn restore_auto(&mut self) -> (r: Result<(), EcError>)
        ensures
            old(self).called(W_UW_FANAUTO, *final(self), r),
    {
        self.noarg(W_UW_FANAUTO)
    }
}

/// A reading as a flag: set where the value is 1.
pub open spec fn flag(a: Result<i32, EcError>) -> Result<bool, EcError> {
    match a {
        Ok(v) => Ok(v == 1),
        Err(e) => Err(e),
    }
}

/// A raw duty reading in percent.
pub open spec fn percent(a: Result<i32, EcError>) -> Result<i32, EcError> {
    match a {
        Ok(v) => Ok(pct_of_raw(v as int) as i32),
        Err(e) => Err(e),
    }
}

/// The bytes in front of the first zero, or all of them.
pub open spec fn until_nul(b: Seq<u8>) -> Seq<u8>
    decreases b.len(),
{
    if b.len() == 0 || b[0] == 0 {
        Seq::empty()
    } else {
        seq![b[0]] + until_nul(b.skip(1))
    }
}

/// What `String::from_utf8_lossy` makes of `b`: its characters, with a replacement character
/// for what is not UTF-8.
pub uninterp spec fn lossy_text(b: Seq<u8>) -> Seq<char>;

/// `String::from_utf8_lossy`. Bytes that are UTF-8 decode to the characters they encode; what
/// stands for other bytes is left to the name.
#[verifier::external_body]
fn utf8_lossy(b: &[u8]) -> (r: String)
    ensures
        r@ == lossy_text(b@),
        valid_utf8(b@) ==> r@ == decode_utf8(b@),
{
    String::from_utf8_lossy(b).into_owned()
}

proof fn lemma_until_nul(b: Seq<u8>, n: int)
    requires
        0 <= n <= b.len(),
        forall|i: int| 0 <= i < n ==> b[i] != 0,
        n < b.len() ==> b[n] == 0,
    ensures
        until_nul(b) == b.take(n),
    decreases n,
{
    if n == 0 {
        assert(b.take(0) == Seq::<u8>::empty());
    } else {
        lemma_until_nul(b.skip(1), n - 1);
        assert(seq![b[0]] + b.skip(1).take(n - 1) == b.take(n));
    }
}

/// The text of the version buffer that the driver filled.
pub fn version_text(buf: &[u8]) -> (r: String)
    ensures
        r@ == lossy_text(until_nul(buf@)),
        valid_utf8(until_nul(buf@)) ==> r@ == decode_utf8(until_nul(buf@)),
{
    let mut end: usize = 0;
    while end < buf.len() && buf[end] != 0
        invariant
            end <= buf@.len(),
            forall|i: int| 0 <= i < end ==> buf@[i] != 0,
        decreases buf@.len() - end,
    {
        end += 1;
    }
    proof {
        lemma_until_nul(buf@, end as int);
        assert(buf@.subrange(0, end as int) == buf@.take(end as int));
    }
    utf8_lossy(vstd::slice::slice_subrange(buf, 0, end))
}

/// On a board whose guard is closed, setting the fans fails and leaves the EC as it was. The
/// refusal is `PermissionDenied`, unless the EC could not even be read.
pub proof fn read_only_keeps_fans<B: EcBackend>(
    pre: TuxedoIo<B>,
    pct: i32,
    post: TuxedoIo<B>,
    r: Result<(), EcError>,
)
    requires
        !pre.writable(),
        pre.set_fans(pct, post, r),
    ensures
        post == pre,
        r is Err,
        r == Err::<(), EcError>(EcError::PermissionDenied) || pre.ec().may_read(
            R_UW_MODE,
            Err(r->Err_0),
        ),
{
}

/// On a board whose guard is closed, no write and no call reaches the EC.
pub proof fn read_only_keeps_ec<B: EcBackend>(
    pre: TuxedoIo<B>,
    req: u64,
    v: i32,
    post: TuxedoIo<B>,
    r: Result<(), EcError>,
)
    requires
        !pre.writable(),
        pre.wrote(req, v, post, r) || pre.called(req, post, r),
    ensures
        post == pre,
        r == Err::<(), EcError>(EcError::PermissionDenied),
{
}

/// Clearing the ownership bit succeeds only where the EC register was read. It reports `false`
/// where the bit was clear, and then nothing was written; it reports `true` where the bit was
/// set, and then the register was written without it. A read or a write that fails is its error,
/// and where the read fails nothing was written.
pub proof fn clearing_reports_what_happened<B: EcBackend>(
    pre: TuxedoIo<B>,
    post: TuxedoIo<B>,
    r: Result<bool, EcError>,
)
    requires
        pre.ensured_manual(post, r),
    ensures
        match r {
            Ok(false) => post == pre && exists|m: i32| #[trigger]
                pre.ec().may_read(R_UW_MODE, Ok(m)) && m & FAN_OWNERSHIP_BIT == 0,
            Ok(true) => exists|m: i32| #[trigger]
                pre.ec().may_read(R_UW_MODE, Ok(m)) && m & FAN_OWNERSHIP_BIT != 0 && pre.wrote(
                    W_UW_MODE,
                    m & !FAN_OWNERSHIP_BIT,
                    post,
                    Ok(()),
                ),
            Err(e) => (pre.ec().may_read(R_UW_MODE, Err(e)) && post == pre) || exists|m: i32|
                #[trigger]
                pre.ec().may_read(R_UW_MODE, Ok(m)) && m & FAN_OWNERSHIP_BIT != 0 && pre.wrote(
                    W_UW_MODE,
                    m & !FAN_OWNERSHIP_BIT,
                    post,
                    Err(e),
                ),
        },
{
    let a = choose|a: Result<i32, EcError>| #[trigger]
        pre.ec().may_read(R_UW_MODE, a) && match a {
            Err(e) => post == pre && r == Err::<bool, EcError>(e),
            Ok(mode) => if mode & FAN_OWNERSHIP_BIT != 0 {
                exists|w: Result<(), EcError>| #[trigger]
                    pre.wrote(W_UW_MODE, mode & !FAN_OWNERSHIP_BIT, post, w) && match w {
                        Ok(_) => r == Ok::<bool, EcError>(true),
                        Err(e) => r == Err::<bool, EcError>(e),
                    }
            } else {
                post == pre && r == Ok::<bool, EcError>(false)
            },
        };
    if let Ok(mode) = a {
        assert(pre.ec().may_read(R_UW_MODE, Ok(mode)));
        if mode & FAN_OWNERSHIP_BIT != 0 {
            let w = choose|w: Result<(), EcError>| #[trigger]
                pre.wrote(W_UW_MODE, mode & !FAN_OWNERSHIP_BIT, post, w) && match w {
                    Ok(_) => r == Ok::<bool, EcError>(true),
                    Err(e) => r == Err::<bool, EcError>(e),
                };
            if let Ok(u) = w {
                assert(u == ());
            }
        }
    }
}

/// Whether an EC keeps EC RAM 0x0751: its reads agree, and after a write that succeeds they
/// give what was written.
pub open spec fn keeps_mode<B: EcBackend>(b: B) -> bool {
    &&& forall|x: Result<i32, EcError>, y: Result<i32, EcError>| #[trigger]
        b.may_read(R_UW_MODE, x) && #[trigger] b.may_read(R_UW_MODE, y) ==> x == y
    &&& forall|v: i32, post: B, x: Result<i32, EcError>| #[trigger]
        b.may_write(W_UW_MODE, v, post, Ok(())) && #[trigger] post.may_read(R_UW_MODE, x) ==> x
            == Ok::<i32, EcError>(v)
}

/// On every EC that keeps EC RAM 0x0751, clearing the ownership bit clears it and keeps every
/// other bit, and doing it again finds it clear and writes nothing.
pub proof fn clearing_is_idempotent<B: EcBackend>(
    pre: TuxedoIo<B>,
    mid: TuxedoIo<B>,
    a: Result<bool, EcError>,
    post: TuxedoIo<B>,
    b: Result<bool, EcError>,
)
    requires
        pre.writable(),
        keeps_mode(pre.ec()),
        pre.ensured_manual(mid, a),
        a is Ok,
        mid.ensured_manual(post, b),
    ensures
        forall|m: i32| #[trigger]
            pre.ec().may_read(R_UW_MODE, Ok(m)) ==> a == Ok::<bool, EcError>(
                m & FAN_OWNERSHIP_BIT != 0,
            ),
        forall|m: i32, x: Result<i32, EcError>| #[trigger]
            pre.ec().may_read(R_UW_MODE, Ok(m)) && #[trigger] mid.ec().may_read(R_UW_MODE, x)
                ==> x == Ok::<i32, EcError>(m & !FAN_OWNERSHIP_BIT),
        a == Ok::<bool, EcError>(false) ==> mid == pre,
        mid.writable(),
        b == Ok::<bool, EcError>(false),
        post == mid,
{
    clearing_reports_what_happened(pre, mid, a);
    let m = if a == Ok::<bool, EcError>(true) {
        choose|m: i32| #[trigger]
            pre.ec().may_read(R_UW_MODE, Ok(m)) && m & FAN_OWNERSHIP_BIT != 0 && pre.wrote(
                W_UW_MODE,
                m & !FAN_OWNERSHIP_BIT,
                mid,
                Ok(()),
            )
    } else {
        choose|m: i32| #[trigger]
            pre.ec().may_read(R_UW_MODE, Ok(m)) && m & FAN_OWNERSHIP_BIT == 0
    };
    assert(m & 0x40i32 == 0 ==> m & !0x40i32 == m) by (bit_vector);
    assert((m & !0x40i32) & 0x40i32 == 0) by (bit_vector);
    assert forall|x: Result<i32, EcError>| #[trigger] mid.ec().may_read(R_UW_MODE, x) implies x
        == Ok::<i32, EcError>(m & !FAN_OWNERSHIP_BIT) by {}
    clearing_reports_what_happened(mid, post, b);
}

/// Setting the fans neither opens nor closes the guard.
pub proof fn fans_keep_guard<B: EcBackend>(
    pre: TuxedoIo<B>,
    pct: i32,
    post: TuxedoIo<B>,
    r: Result<(), EcError>,
)
    requires
        pre.set_fans(pct, post, r),
    ensures
        post.writable() == pre.writable(),
{
}

/// The reference board is the only one that is validated.
pub proof fn only_the_reference_board(id: i32)
    ensures
        validated(id) <==> id == 0x1a,
{
}

/// A flag is set exactly where the reading is 1, a duty is the percentage of the reading, and a
/// reading that failed stays that failure.
pub proof fn readings_mean(v: i32, e: EcError)
    ensures
        flag(Ok(v)) == Ok::<bool, EcError>(v == 1),
        flag(Err(e)) == Err::<bool, EcError>(e),
        percent(Err(e)) == Err::<i32, EcError>(e),
        percent(Ok(v)) is Ok,
        v >= 0 ==> 2 * percent(Ok(v))->Ok_0 - 1 <= v <= 2 * percent(Ok(v))->Ok_0,
{
    pct_is_nearest(v as int);
}

/// On a board that may be written to, a write or a call reaches the EC as it was asked for, and
/// the answer is the EC's.
pub proof fn open_guard_passes_on<B: EcBackend>(
    pre: TuxedoIo<B>,
    req: u64,
    v: i32,
    post: TuxedoIo<B>,
    r: Result<(), EcError>,
)
    requires
        pre.writable(),
    ensures
        pre.wrote(req, v, post, r) ==> pre.ec().may_write(req, v, post.ec(), r) && post.writable(),
        pre.called(req, post, r) ==> pre.ec().may_call(req, post.ec(), r) && post.writable(),
{
}

/// Setting both fans succeeds only where the ownership bit was seen clear or was cleared, and
/// both fans then took the raw duty of the percentage: two steps a point.
pub proof fn fans_take_the_raw_duty<B: EcBackend>(
    pre: TuxedoIo<B>,
    pct: i32,
    post: TuxedoIo<B>,
    r: Result<(), EcError>,
)
    requires
        pre.set_fans(pct, post, r),
        r is Ok,
        0 <= pct <= 100,
    ensures
        exists|s1: TuxedoIo<B>, s2: TuxedoIo<B>, was: bool|
            #[trigger] pre.ensured_manual(s1, Ok(was)) && #[trigger] s1.wrote(
                W_UW_FANSPEED,
                (2 * pct) as i32,
                s2,
                Ok(()),
            ) && s2.wrote(W_UW_FANSPEED2, (2 * pct) as i32, post, Ok(())),
{
    raw_is_proportional(pct as int);
    let raw = (2 * pct) as i32;
    let (s1, a) = choose|s1: TuxedoIo<B>, a: Result<bool, EcError>| #[trigger]
        pre.ensured_manual(s1, a) && match a {
            Err(e) => post == s1 && r == Err::<(), EcError>(e),
            Ok(_) => exists|s2: TuxedoIo<B>, b: Result<(), EcError>| #[trigger]
                s1.wrote(W_UW_FANSPEED, raw, s2, b) && match b {
                    Err(e) => post == s2 && r == Err::<(), EcError>(e),
                    Ok(_) => s2.wrote(W_UW_FANSPEED2, raw, post, r),
                },
        };
    let (s2, b) = choose|s2: TuxedoIo<B>, b: Result<(), EcError>| #[trigger]
        s1.wrote(W_UW_FANSPEED, raw, s2, b) && match b {
            Err(e) => post == s2 && r == Err::<(), EcError>(e),
            Ok(_) => s2.wrote(W_UW_FANSPEED2, raw, post, r),
        };
    if let Ok(u) = b {
        assert(u == ());
    }
    if let Ok(u) = r {
        assert(u == ());
    }
    if let Ok(was) = a {
        assert(pre.ensured_manual(s1, Ok(was)));
    }
}

/// What is taken of a version buffer are its bytes up to the first zero, or all of them.
pub proof fn version_ends_at_zero(b: Seq<u8>)
    ensures
        until_nul(b).len() <= b.len(),
        until_nul(b) == b.take(until_nul(b).len() as int),
        forall|i: int| 0 <= i < until_nul(b).len() ==> b[i] != 0,
        until_nul(b).len() < b.len() ==> b[until_nul(b).len() as int] == 0,
    decreases b.len(),
{
    if b.len() > 0 && b[0] != 0 {
        let t = b.skip(1);
        version_ends_at_zero(t);
        let n = until_nul(t).len() as int;
        assert(until_nul(b).len() == n + 1);
        assert(seq![b[0]] + t.take(n) == b.take(n + 1));
        assert forall|i: int| 0 <= i < n + 1 implies b[i] != 0 by {
            if i > 0 {
                assert(t[i - 1] == b[i]);
            }
        }
        if n < t.len() {
            assert(t[n] == b[n + 1]);
        }
    } else {
        assert(b.take(0) == Seq::<u8>::empty());
    }
}

/// The EC owns the fans where the bit 0x40 of EC RAM 0x0751 is set: clearing it leaves every
/// other bit as it was.
pub proof fn ownership_is_one_bit(mode: i32)
    ensures
        FAN_OWNERSHIP_BIT == 0x40,
        (mode & !FAN_OWNERSHIP_BIT) & 0x40 == 0,
        (mode & !FAN_OWNERSHIP_BIT) | (mode & 0x40) == mode,
{
    assert((mode & !0x40i32) & 0x40i32 == 0i32 && (mode & !0x40i32) | (mode & 0x40i32) == mode)
        by (bit_vector);
}

} // verus!
