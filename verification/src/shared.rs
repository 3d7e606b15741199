//! What the control loop and the socket server share.

use crate::control::Tick;
use crate::device::{EcBackend, EcError, TuxedoIo};
use crate::ioctl::W_UW_PERF_PROF;
use crate::number::{dec, push_dec};
use crate::perf::{perf_named, PerfProfile};
use crate::profiles::{opt_text, Profile, ProfileView};
use crate::sysfs::{
    attr_path, charge_known, chg_valid, contains, kbd_text, kbd_write, stands_at,
};
use vstd::prelude::*;
use vstd::string::*;

verus! {

/// The state that STATUS reports.
pub struct Shared {
    pub cpu_temp: i32,
    pub gpu_temp: i32,
    pub cpu_fan: i32,
    pub gpu_fan: i32,
    /// EC RAM 0x0751.
    pub mode: i32,
    /// What the curve asks for.
    pub curve_pct: i32,
    /// A fixed duty to hold; none means that the curve is followed.
    pub manual: Option<i32>,
    pub profile: String,
    /// Directory of the keyboard backlight, where there is one.
    pub kbd_dir: Option<String>,
    pub kbd_max: i32,
    pub kbd_cur: i32,
    pub charge: String,
    /// The charging profiles that the board has, separated by spaces.
    pub charges: String,
    pub model_id: i32,
    /// The board is not validated: status only, no writes to the EC.
    pub read_only: bool,
}

/// What a [`Shared`] holds.
#[verifier::ext_equal]
pub struct SharedView {
    pub cpu_temp: i32,
    pub gpu_temp: i32,
    pub cpu_fan: i32,
    pub gpu_fan: i32,
    pub mode: i32,
    pub curve_pct: i32,
    pub manual: Option<i32>,
    pub profile: Seq<char>,
    pub kbd_dir: Option<Seq<char>>,
    pub kbd_max: i32,
    pub kbd_cur: i32,
    pub charge: Seq<char>,
    pub charges: Seq<char>,
    pub model_id: i32,
    pub read_only: bool,
}

impl View for Shared {
    type V = SharedView;

    open spec fn view(&self) -> SharedView {
        SharedView {
            cpu_temp: self.cpu_temp,
            gpu_temp: self.gpu_temp,
            cpu_fan: self.cpu_fan,
            gpu_fan: self.gpu_fan,
            mode: self.mode,
            curve_pct: self.curve_pct,
            manual: self.manual,
            profile: self.profile@,
            kbd_dir: opt_text(self.kbd_dir),
            kbd_max: self.kbd_max,
            kbd_cur: self.kbd_cur,
            charge: self.charge@,
            charges: self.charges@,
            model_id: self.model_id,
            read_only: self.read_only,
        }
    }
}

/// A truth value in JSON.
pub open spec fn json_bool(b: bool) -> Seq<char> {
    if b {
        "true"@
    } else {
        "false"@
    }
}

/// An optional number in JSON.
pub open spec fn json_opt(v: Option<i32>) -> Seq<char> {
    match v {
        Some(v) => dec(v as int),
        None => "null"@,
    }
}

/// The reply to STATUS: one JSON object. Texts stand in it as they are.
pub open spec fn status_text(s: SharedView) -> Seq<char> {
    "{\"cpu_temp\":"@ + dec(s.cpu_temp as int) + ",\"gpu_temp\":"@ + dec(s.gpu_temp as int)
        + ",\"cpu_fan\":"@ + dec(s.cpu_fan as int) + ",\"gpu_fan\":"@ + dec(s.gpu_fan as int)
        + ",\"mode\":"@ + dec(s.mode as int) + ",\"curve_pct\":"@ + dec(s.curve_pct as int)
        + ",\"manual\":"@ + json_opt(s.manual) + ",\"profile\":\""@ + s.profile + "\",\"kbd\":"@
        + dec(s.kbd_cur as int) + ",\"kbd_max\":"@ + dec(s.kbd_max as int) + ",\"charge\":\""@
        + s.charge + "\",\"charges\":\""@ + s.charges + "\",\"model_id\":"@ + dec(s.model_id as int)
        + ",\"read_only\":"@ + json_bool(s.read_only) + "}"@
}

/// A text to be written to a file.
pub struct FileWrite {
    pub path: String,
    pub text: String,
}

/// What is to be written outside the EC to apply a profile.
pub struct Peripherals {
    /// The keyboard brightness. Whether the write succeeds is not looked at.
    pub kbd: Option<FileWrite>,
    /// The charging profile, for a board that has them.
    pub charge: Option<String>,
}

/// What a [`Peripherals`] holds: the path and text of the brightness, and the profile.
#[verifier::ext_equal]
pub struct PeripheralsView {
    pub kbd: Option<(Seq<char>, Seq<char>)>,
    pub charge: Option<Seq<char>>,
}

impl View for Peripherals {
    type V = PeripheralsView;

    open spec fn view(&self) -> PeripheralsView {
        PeripheralsView {
            kbd: match self.kbd {
                Some(w) => Some((w.path@, w.text@)),
                None => None,
            },
            charge: opt_text(self.charge),
        }
    }
}

impl SharedView {
    /// The file of the keyboard brightness in `dir`, and what is written to it for `v`.
    pub open spec fn kbd_file(dir: Seq<char>, v: int) -> (Seq<char>, Seq<char>) {
        (dir + "/"@ + "brightness"@, kbd_text(v))
    }

    /// What is to be written for a brightness and a charging profile. A brightness needs a
    /// backlight, and a charging profile that does not exist is left out.
    pub open spec fn writes(
        self,
        kbd: Option<i32>,
        charge: Option<Seq<char>>,
    ) -> PeripheralsView {
        PeripheralsView {
            kbd: match (kbd, self.kbd_dir) {
                (Some(v), Some(dir)) => Some(Self::kbd_file(dir, v as int)),
                _ => None,
            },
            charge: match charge {
                Some(c) if charge_known(c) => Some(c),
                _ => None,
            },
        }
    }

    /// The state once the brightness has been sent.
    pub open spec fn with_kbd(self, kbd: Option<i32>) -> SharedView {
        match (kbd, self.kbd_dir) {
            (Some(v), Some(_)) => SharedView { kbd_cur: v, ..self },
            _ => self,
        }
    }

    /// The performance profile that applying `p` writes to the EC. Nothing is written on a
    /// read-only board.
    pub open spec fn perf_of(self, perf: Seq<char>) -> Option<PerfProfile> {
        if self.read_only {
            None
        } else {
            perf_named(perf)
        }
    }

    /// The state once the performance profile has been sent.
    pub open spec fn with_perf(self, p: Option<PerfProfile>) -> SharedView {
        match p {
            Some(p) => SharedView { profile: p.id(), ..self },
            None => self,
        }
    }

    /// The state once `p` has been applied, but for the charging profile.
    pub open spec fn applied(self, p: ProfileView) -> SharedView {
        self.with_perf(self.perf_of(p.perf)).with_kbd(p.kbd)
    }

    /// The state once a charging profile has been written.
    pub open spec fn with_charge(self, charge: Option<Seq<char>>) -> SharedView {
        match charge {
            Some(c) => SharedView { charge: c, ..self },
            None => self,
        }
    }

    /// The state after a tick.
    pub open spec fn ticked(self, t: Tick, kbd: i32, charge: Seq<char>) -> SharedView {
        SharedView {
            cpu_temp: t.cpu_temp,
            gpu_temp: t.gpu_temp,
            cpu_fan: t.cpu_fan,
            gpu_fan: t.gpu_fan,
            mode: t.mode,
            curve_pct: t.decision.wanted,
            kbd_cur: kbd,
            charge,
            ..self
        }
    }
}

/// The EC took a performance profile, or nothing was sent to it. The answer is not looked at.
pub open spec fn perf_sent<B: EcBackend>(
    pre: TuxedoIo<B>,
    p: Option<PerfProfile>,
    post: TuxedoIo<B>,
) -> bool {
    match p {
        Some(p) => exists|r: Result<(), EcError>| #[trigger]
            pre.wrote(W_UW_PERF_PROF, p.number(), post, r),
        None => post == pre,
    }
}

impl Default for Shared {
    fn default() -> (r: Self)
        ensures
            r@ == Shared::blank(),
    {
        let r = Shared {
            cpu_temp: 0,
            gpu_temp: 0,
            cpu_fan: 0,
            gpu_fan: 0,
            mode: 0,
            curve_pct: 0,
            manual: None,
            profile: String::new(),
            kbd_dir: None,
            kbd_max: 0,
            kbd_cur: 0,
            charge: String::new(),
            charges: String::new(),
            model_id: 0,
            read_only: false,
        };
        assert(r@ == Shared::blank());
        r
    }
}

impl Shared {
    /// The state before anything is known.
    pub open spec fn blank() -> SharedView {
        SharedView {
            cpu_temp: 0,
            gpu_temp: 0,
            cpu_fan: 0,
            gpu_fan: 0,
            mode: 0,
            curve_pct: 0,
            manual: None,
            profile: Seq::empty(),
            kbd_dir: None,
            kbd_max: 0,
            kbd_cur: 0,
            charge: Seq::empty(),
            charges: Seq::empty(),
            model_id: 0,
            read_only: false,
        }
    }

    /// The reply to STATUS.
    pub fn status(&self) -> (r: String)
        ensures
            r@ == status_text(self@),
    {
        let mut s = "{\"cpu_temp\":".to_string();
        push_dec(&mut s, self.cpu_temp);
        s.append(",\"gpu_temp\":");
        push_dec(&mut s, self.gpu_temp);
        s.append(",\"cpu_fan\":");
        push_dec(&mut s, self.cpu_fan);
        s.append(",\"gpu_fan\":");
        push_dec(&mut s, self.gpu_fan);
        s.append(",\"mode\":");
        push_dec(&mut s, self.mode);
        s.append(",\"curve_pct\":");
        push_dec(&mut s, self.curve_pct);
        s.append(",\"manual\":");
        match self.manual {
            Some(m) => push_dec(&mut s, m),
            None => s.append("null"),
        }
        s.append(",\"profile\":\"");
        s.append(self.profile.as_str());
        s.append("\",\"kbd\":");
        push_dec(&mut s, self.kbd_cur);
        s.append(",\"kbd_max\":");
        push_dec(&mut s, self.kbd_max);
        s.append(",\"charge\":\"");
        s.append(self.charge.as_str());
        s.append("\",\"charges\":\"");
        s.append(self.charges.as_str());
        s.append("\",\"model_id\":");
        push_dec(&mut s, self.model_id);
        s.append(",\"read_only\":");
        if self.read_only {
            s.append("true");
        } else {
            s.append("false");
        }
        s.append("}");
        s
    }

    /// The write of a keyboard brightness, where there is a backlight.
    pub fn kbd_file(&self, v: i32) -> (r: Option<FileWrite>)
        ensures
            match self@.kbd_dir {
                Some(dir) => r is Some && (r->0.path@, r->0.text@) == SharedView::kbd_file(
                    dir,
                    v as int,
                ),
                None => r is None,
            },
    {
        match &self.kbd_dir {
            Some(dir) => Some(
                FileWrite { path: attr_path(dir.as_str(), "brightness"), text: kbd_write(v) },
            ),
            None => None,
        }
    }

    /// Notes a brightness and says what is to be written for it and for a charging profile.
    pub fn peripherals(&mut self, kbd: Option<i32>, charge: &Option<String>) -> (r: Peripherals)
        ensures
            final(self)@ == old(self)@.with_kbd(kbd),
            r@ == old(self)@.writes(kbd, opt_text(*charge)),
    {
        let write = match kbd {
            Some(v) => {
                let w = self.kbd_file(v);
                if w.is_some() {
                    self.kbd_cur = v;
                }
                w
            },
            None => None,
        };
        let charge = match charge {
            Some(c) => if chg_valid(c.as_str()) {
                Some(c.clone())
            } else {
                None
            },
            None => None,
        };
        Peripherals { kbd: write, charge }
    }

    /// Notes a performance profile that was sent to the EC.
    pub fn set_perf(&mut self, p: PerfProfile)
        ensures
            final(self)@ == old(self)@.with_perf(Some(p)),
    {
        self.profile = p.as_id().to_string();
    }

    /// Notes a charging profile that was written.
    pub fn charge_written(&mut self, charge: Option<String>)
        ensures
            final(self)@ == old(self)@.with_charge(opt_text(charge)),
    {
        if let Some(c) = charge {
            self.charge = c;
        }
    }

    /// Notes what a tick saw, with the brightness and the charging profile at that time.
    pub fn record(&mut self, t: &Tick, kbd: i32, charge: String)
        ensures
            final(self)@ == old(self)@.ticked(*t, kbd, charge@),
    {
        self.cpu_temp = t.cpu_temp;
        self.gpu_temp = t.gpu_temp;
        self.cpu_fan = t.cpu_fan;
        self.gpu_fan = t.gpu_fan;
        self.mode = t.mode;
        self.curve_pct = t.decision.wanted;
        self.kbd_cur = kbd;
        self.charge = charge;
    }
}

/// Applies a profile: its performance mode to the EC, unless the board is read-only, and what
/// it says of keyboard backlight and charging as writes for the caller to make. The control
/// loop takes the fan curve from the active profile.
pub fn apply_profile<B: EcBackend>(
    dev: &mut TuxedoIo<B>,
    shared: &mut Shared,
    p: &Profile,
) -> (r: Peripherals)
    ensures
        perf_sent(*old(dev), old(shared)@.perf_of(p@.perf), *final(dev)),
        final(shared)@ == old(shared)@.applied(p@),
        r@ == old(shared)@.writes(p@.kbd, p@.charge),
{
    if !shared.read_only {
        if let Some(pp) = PerfProfile::from_name(p.perf.as_str()) {
            let r = dev.set_perf(pp);
            assert(old(dev).wrote(W_UW_PERF_PROF, pp.number(), *dev, r));
            assert(perf_sent(*old(dev), Some(pp), *dev));
            shared.set_perf(pp);
        }
    }
    shared.peripherals(p.kbd, &p.charge)
}

/// Applying a profile on a read-only board leaves the EC as it was; backlight and charging are
/// applied all the same.
pub proof fn read_only_applies_peripherals<B: EcBackend>(
    pre: TuxedoIo<B>,
    s: SharedView,
    p: ProfileView,
    post: TuxedoIo<B>,
)
    requires
        s.read_only,
        perf_sent(pre, s.perf_of(p.perf), post),
    ensures
        post == pre,
        s.applied(p).profile == s.profile,
        s.kbd_dir is Some && p.kbd is Some ==> s.applied(p).kbd_cur == p.kbd->0,
{
}

/// Applying a profile touches neither a manual override nor what the board is.
pub proof fn applying_keeps_fan_mode(s: SharedView, p: ProfileView)
    ensures
        s.applied(p).manual == s.manual,
        s.applied(p).read_only == s.read_only,
        s.applied(p).model_id == s.model_id,
        s.applied(p).kbd_dir == s.kbd_dir,
{
}

/// A charging profile that does not exist is never written.
pub proof fn only_known_charges(s: SharedView, kbd: Option<i32>, charge: Option<Seq<char>>)
    ensures
        s.writes(kbd, charge).charge is Some ==> charge_known(s.writes(kbd, charge).charge->0),
{
}

proof fn lemma_holds_tail(x: Seq<char>, a: Seq<char>, b: Seq<char>, c: Seq<char>)
    ensures
        contains(x + a + b + c, a + b + c),
{
    let s = x + a + b + c;
    let part = a + b + c;
    let n = x.len() as int;
    assert(s.subrange(n, n + part.len()) == part);
    assert(stands_at(s, part, n));
}

proof fn lemma_holds_longer(x: Seq<char>, part: Seq<char>, y: Seq<char>)
    requires
        contains(x, part),
    ensures
        contains(x + y, part),
{
    let i = choose|i: int| stands_at(x, part, i);
    assert((x + y).subrange(i, i + part.len()) == x.subrange(i, i + part.len()));
    assert(stands_at(x + y, part, i));
}

/// STATUS reports every field under its name.
pub proof fn status_reports_every_field(s: SharedView)
    ensures
        ({
            let r = status_text(s);
            &&& contains(r, "{\"cpu_temp\":"@ + dec(s.cpu_temp as int) + ",\"gpu_temp\":"@)
            &&& contains(r, ",\"gpu_temp\":"@ + dec(s.gpu_temp as int) + ",\"cpu_fan\":"@)
            &&& contains(r, ",\"cpu_fan\":"@ + dec(s.cpu_fan as int) + ",\"gpu_fan\":"@)
            &&& contains(r, ",\"gpu_fan\":"@ + dec(s.gpu_fan as int) + ",\"mode\":"@)
            &&& contains(r, ",\"mode\":"@ + dec(s.mode as int) + ",\"curve_pct\":"@)
            &&& contains(r, ",\"curve_pct\":"@ + dec(s.curve_pct as int) + ",\"manual\":"@)
            &&& s.manual is Some ==> contains(
                r,
                ",\"manual\":"@ + dec(s.manual->0 as int) + ",\"profile\":\""@,
            )
            &&& s.manual is None ==> contains(r, ",\"manual\":"@ + "null"@ + ",\"profile\":\""@)
            &&& contains(r, ",\"profile\":\""@ + s.profile + "\",\"kbd\":"@)
            &&& contains(r, "\",\"kbd\":"@ + dec(s.kbd_cur as int) + ",\"kbd_max\":"@)
            &&& contains(r, ",\"kbd_max\":"@ + dec(s.kbd_max as int) + ",\"charge\":\""@)
            &&& contains(r, ",\"charge\":\""@ + s.charge + "\",\"charges\":\""@)
            &&& contains(r, "\",\"charges\":\""@ + s.charges + "\",\"model_id\":"@)
            &&& contains(r, "\",\"model_id\":"@ + dec(s.model_id as int) + ",\"read_only\":"@)
            &&& s.read_only ==> contains(r, ",\"read_only\":"@ + "true"@ + "}"@)
            &&& !s.read_only ==> contains(r, ",\"read_only\":"@ + "false"@ + "}"@)
        }),
{
    assert forall|x: Seq<char>, part: Seq<char>, y: Seq<char>| #[trigger]
        contains(x, part) implies contains(#[trigger] (x + y), part) by {
        lemma_holds_longer(x, part, y);
    }
    let e = Seq::<char>::empty();
    let p1 = "{\"cpu_temp\":"@ + dec(s.cpu_temp as int);
    let p2 = p1 + ",\"gpu_temp\":"@ + dec(s.gpu_temp as int);
    let p3 = p2 + ",\"cpu_fan\":"@ + dec(s.cpu_fan as int);
    let p4 = p3 + ",\"gpu_fan\":"@ + dec(s.gpu_fan as int);
    let p5 = p4 + ",\"mode\":"@ + dec(s.mode as int);
    let p6 = p5 + ",\"curve_pct\":"@ + dec(s.curve_pct as int);
    let p7 = p6 + ",\"manual\":"@ + json_opt(s.manual);
    let p8 = p7 + ",\"profile\":\""@ + s.profile;
    let p9 = p8 + "\",\"kbd\":"@ + dec(s.kbd_cur as int);
    let p10 = p9 + ",\"kbd_max\":"@ + dec(s.kbd_max as int);
    let p11 = p10 + ",\"charge\":\""@ + s.charge;
    let p12 = p11 + "\",\"charges\":\""@ + s.charges;
    let p13 = p12 + "\",\"model_id\":"@ + dec(s.model_id as int);
    assert(e + "{\"cpu_temp\":"@ == "{\"cpu_temp\":"@);
    lemma_holds_tail(e, "{\"cpu_temp\":"@, dec(s.cpu_temp as int), ",\"gpu_temp\":"@);
    lemma_holds_tail(p1, ",\"gpu_temp\":"@, dec(s.gpu_temp as int), ",\"cpu_fan\":"@);
    lemma_holds_tail(p2, ",\"cpu_fan\":"@, dec(s.cpu_fan as int), ",\"gpu_fan\":"@);
    lemma_holds_tail(p3, ",\"gpu_fan\":"@, dec(s.gpu_fan as int), ",\"mode\":"@);
    lemma_holds_tail(p4, ",\"mode\":"@, dec(s.mode as int), ",\"curve_pct\":"@);
    lemma_holds_tail(p5, ",\"curve_pct\":"@, dec(s.curve_pct as int), ",\"manual\":"@);
    lemma_holds_tail(p6, ",\"manual\":"@, json_opt(s.manual), ",\"profile\":\""@);
    lemma_holds_tail(p7, ",\"profile\":\""@, s.profile, "\",\"kbd\":"@);
    lemma_holds_tail(p8, "\",\"kbd\":"@, dec(s.kbd_cur as int), ",\"kbd_max\":"@);
    lemma_holds_tail(p9, ",\"kbd_max\":"@, dec(s.kbd_max as int), ",\"charge\":\""@);
    lemma_holds_tail(p10, ",\"charge\":\""@, s.charge, "\",\"charges\":\""@);
    lemma_holds_tail(p11, "\",\"charges\":\""@, s.charges, "\",\"model_id\":"@);
    lemma_holds_tail(p12, "\",\"model_id\":"@, dec(s.model_id as int), ",\"read_only\":"@);
    lemma_holds_tail(p13, ",\"read_only\":"@, json_bool(s.read_only), "}"@);
    assert(status_text(s) == p13 + ",\"read_only\":"@ + json_bool(s.read_only) + "}"@);
}

/// A brightness goes to the file `brightness` of the backlight, in decimal, with anything below
/// zero as zero.
pub proof fn brightness_goes_to_its_file(dir: Seq<char>, v: int)
    ensures
        SharedView::kbd_file(dir, v).0 == dir + "/brightness"@,
        v >= 0 ==> SharedView::kbd_file(dir, v).1 == dec(v),
        v < 0 ==> SharedView::kbd_file(dir, v).1 == seq!['0'],
{
    reveal_strlit("/");
    reveal_strlit("brightness");
    reveal_strlit("/brightness");
    assert("/"@ + "brightness"@ == "/brightness"@);
    assert(dir + "/"@ + "brightness"@ == dir + ("/"@ + "brightness"@));
    assert(dec(0) == seq!['0']);
}

/// A brightness is written where one is asked for and there is a backlight, a charging profile
/// where one is asked for that exists, and nothing else.
pub proof fn only_what_is_asked_is_written(
    s: SharedView,
    kbd: Option<i32>,
    charge: Option<Seq<char>>,
)
    ensures
        kbd is None || s.kbd_dir is None ==> s.writes(kbd, charge).kbd is None,
        kbd is Some && s.kbd_dir is Some ==> s.writes(kbd, charge).kbd == Some(
            SharedView::kbd_file(s.kbd_dir->0, kbd->0 as int),
        ),
        charge is None ==> s.writes(kbd, charge).charge is None,
        charge is Some ==> ({
            let exists_one = charge->0 == "high_capacity"@ || charge->0 == "balanced"@ || charge->0
                == "stationary"@;
            &&& exists_one ==> s.writes(kbd, charge).charge == charge
            &&& !exists_one ==> s.writes(kbd, charge).charge is None
        }),
{
}

/// Applying a profile notes its mode where it names one and the board may be written to, and its
/// brightness where it has one and there is a backlight. Everything else is kept.
pub proof fn applying_changes_only(s: SharedView, p: ProfileView)
    ensures
        ({
            let t = s.applied(p);
            let sent = !s.read_only && perf_named(p.perf) is Some;
            &&& sent ==> t.profile == perf_named(p.perf)->0.id() && s.perf_of(p.perf) == perf_named(
                p.perf,
            )
            &&& !sent ==> t.profile == s.profile && s.perf_of(p.perf) is None
            &&& p.kbd is Some && s.kbd_dir is Some ==> Some(t.kbd_cur) == p.kbd
            &&& p.kbd is None || s.kbd_dir is None ==> t.kbd_cur == s.kbd_cur
            &&& t.cpu_temp == s.cpu_temp && t.gpu_temp == s.gpu_temp
            &&& t.cpu_fan == s.cpu_fan && t.gpu_fan == s.gpu_fan
            &&& t.mode == s.mode && t.curve_pct == s.curve_pct && t.manual == s.manual
            &&& t.kbd_dir == s.kbd_dir && t.kbd_max == s.kbd_max
            &&& t.charge == s.charge && t.charges == s.charges
            &&& t.model_id == s.model_id && t.read_only == s.read_only
        }),
{
}

/// A charging profile that was written is the one that is reported from then on, and nothing
/// else changes.
pub proof fn charge_is_noted(s: SharedView, c: Seq<char>)
    ensures
        s.with_charge(None) == s,
        s.with_charge(Some(c)).charge == c,
        s.with_charge(Some(c)).with_charge(Some(s.charge)) == s,
{
}

/// A tick is reported as it was: the temperatures, the duties, the register and what the curve
/// asks for. What the board is, the override and the profile are kept.
pub proof fn tick_is_reported(s: SharedView, t: Tick, kbd: i32, charge: Seq<char>)
    ensures
        ({
            let r = s.ticked(t, kbd, charge);
            &&& r.cpu_temp == t.cpu_temp && r.gpu_temp == t.gpu_temp
            &&& r.cpu_fan == t.cpu_fan && r.gpu_fan == t.gpu_fan
            &&& r.mode == t.mode && r.curve_pct == t.decision.wanted
            &&& r.kbd_cur == kbd && r.charge == charge
            &&& r.manual == s.manual && r.profile == s.profile
            &&& r.kbd_dir == s.kbd_dir && r.kbd_max == s.kbd_max && r.charges == s.charges
            &&& r.model_id == s.model_id && r.read_only == s.read_only
        }),
{
}

/// Where the EC may be written to, a mode that is sent reaches it by its number; where none is
/// sent, the EC is as it was.
pub proof fn mode_reaches_the_ec<B: EcBackend>(
    pre: TuxedoIo<B>,
    p: PerfProfile,
    post: TuxedoIo<B>,
)
    requires
        pre.writable(),
        perf_sent(pre, Some(p), post),
    ensures
        exists|n: i32, r: Result<(), EcError>| #[trigger]
            pre.ec().may_write(W_UW_PERF_PROF, n, post.ec(), r) && (p is PowerSave ==> n == 1) && (
            p is Enthusiast ==> n == 2) && (p is Overboost ==> n == 3),
        post.writable(),
{
    let r = choose|r: Result<(), EcError>| #[trigger]
        pre.wrote(W_UW_PERF_PROF, p.number(), post, r);
    assert(pre.ec().may_write(W_UW_PERF_PROF, p.number(), post.ec(), r));
}

/// A view shows the fields as they stand.
pub proof fn shared_view_shows_fields(s: Shared)
    ensures
        s@.cpu_temp == s.cpu_temp && s@.gpu_temp == s.gpu_temp,
        s@.cpu_fan == s.cpu_fan && s@.gpu_fan == s.gpu_fan,
        s@.mode == s.mode && s@.curve_pct == s.curve_pct && s@.manual == s.manual,
        s@.profile == s.profile@ && s@.charge == s.charge@ && s@.charges == s.charges@,
        s@.kbd_max == s.kbd_max && s@.kbd_cur == s.kbd_cur,
        s.kbd_dir is Some ==> s@.kbd_dir == Some(s.kbd_dir->0@),
        s.kbd_dir is None ==> s@.kbd_dir is None,
        s@.model_id == s.model_id && s@.read_only == s.read_only,
{
}

} // verus!
