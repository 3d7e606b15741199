//! How the daemon starts, runs and stops.

use crate::config::{Config, ConfigView};
use crate::control::{reading, tick, ticked, value_or, ControlState, Tick, Tuning};
use crate::device::{flag, EcBackend, EcError, TuxedoIo};
use crate::ioctl::{R_HWCHECK_UW, R_UW_MODEL_ID, W_UW_FANAUTO};
use crate::profiles::{
    builtin_name, builtin_profiles, copy_curve, copy_opt, has_builtins, load, loaded,
    loading_seeds_builtins, lookup, opt_store, unique_names, views, Profile,
    ProfileView, Store, StoreView,
};
use crate::shared::{Shared, SharedView};
use crate::text::same;
use vstd::prelude::*;

verus! {

/// What is asked of the EC before anything else.
#[derive(Clone, Copy, Debug, PartialEq, Eq, Structural)]
pub struct Probe {
    /// Whether this is Uniwill hardware. On any other the daemon does not run.
    pub uniwill: bool,
    pub model_id: i32,
    /// The board is not validated, so the daemon reports and writes nothing to the EC.
    pub read_only: bool,
}

/// Asks the EC what it is. A hardware check that fails counts as another vendor, a model id
/// that cannot be read as zero.
pub fn probe<B: EcBackend>(dev: &TuxedoIo<B>) -> (p: Probe)
    ensures
        exists|a: Result<i32, EcError>| #[trigger]
            dev.ec().may_read(R_HWCHECK_UW, a) && p.uniwill == (flag(a) == Ok::<bool, EcError>(
                true,
            )),
        reading(dev.ec(), R_UW_MODEL_ID, 0, p.model_id),
        p.read_only == !dev.writable(),
{
    let uniwill = match dev.is_uniwill() {
        Ok(b) => b,
        Err(_) => false,
    };
    let model_id = value_or(dev.model_id(), 0);
    Probe { uniwill, model_id, read_only: !dev.write_allowed() }
}

/// The state to start from: the board, its keyboard backlight with the highest brightness, and
/// its charging profiles with the current one.
pub open spec fn started(
    p: Probe,
    kbd: Option<(Seq<char>, i32)>,
    charging: Option<(Seq<char>, Seq<char>)>,
) -> SharedView {
    SharedView {
        model_id: p.model_id,
        read_only: p.read_only,
        kbd_dir: match kbd {
            Some(k) => Some(k.0),
            None => None,
        },
        kbd_max: match kbd {
            Some(k) => k.1,
            None => 0,
        },
        charges: match charging {
            Some(c) => c.0,
            None => Seq::empty(),
        },
        charge: match charging {
            Some(c) => c.1,
            None => Seq::empty(),
        },
        ..Shared::blank()
    }
}

/// The state to start from.
pub fn start_shared(
    p: &Probe,
    kbd: Option<(String, i32)>,
    charging: Option<(String, String)>,
) -> (s: Shared)
    ensures
        s@ == started(
            *p,
            match kbd {
                Some((dir, n)) => Some((dir@, n)),
                None => None,
            },
            match charging {
                Some((all, cur)) => Some((all@, cur@)),
                None => None,
            },
        ),
{
    let mut s = Shared::default();
    s.model_id = p.model_id;
    s.read_only = p.read_only;
    if let Some((dir, n)) = kbd {
        s.kbd_dir = Some(dir);
        s.kbd_max = n;
    }
    if let Some((all, cur)) = charging {
        s.charges = all;
        s.charge = cur;
    }
    s
}

/// The profile that a configuration describes.
pub open spec fn configured(cfg: ConfigView) -> ProfileView {
    ProfileView {
        name: "Configured"@,
        perf: cfg.perf_profile->0,
        curve: cfg.curve,
        kbd: cfg.kbd_brightness,
        charge: cfg.charge_profile,
    }
}

/// On the first run, a configuration that names a performance profile becomes a profile of its
/// own, which is the active and the default one.
pub open spec fn folded(s: StoreView, cfg: ConfigView, fresh: bool) -> StoreView {
    if fresh && cfg.perf_profile is Some {
        StoreView {
            active: "Configured"@,
            default: "Configured"@,
            profiles: seq![configured(cfg)] + s.profiles,
        }
    } else {
        s
    }
}

/// Whether the configuration asks for another profile to be active, one that exists.
pub open spec fn wants_other(s: StoreView, cfg: ConfigView) -> bool {
    &&& cfg.profile is Some
    &&& lookup(s.profiles, cfg.profile->0) is Some
    &&& s.active != cfg.profile->0
}

/// The store with the profile active that the configuration asks for, where it exists.
pub open spec fn honoured(s: StoreView, cfg: ConfigView) -> StoreView {
    if wants_other(s, cfg) {
        StoreView { active: cfg.profile->0, ..s }
    } else {
        s
    }
}

/// The store to run with.
pub open spec fn starting_store(
    stored: Option<StoreView>,
    fresh: bool,
    cfg: ConfigView,
) -> StoreView {
    honoured(folded(loaded(stored), cfg, fresh), cfg)
}

fn fold(s: &mut Store, cfg: &Config, fresh: bool) -> (saved: bool)
    ensures
        final(s)@ == folded(old(s)@, cfg@, fresh),
        saved == (fresh && cfg@.perf_profile is Some),
{
    if !fresh {
        return false;
    }
    match &cfg.perf_profile {
        Some(perf) => {
            let p = Profile {
                name: "Configured".to_string(),
                perf: perf.clone(),
                curve: copy_curve(&cfg.curve),
                kbd: cfg.kbd_brightness,
                charge: copy_opt(&cfg.charge_profile),
            };
            let ghost before = s.profiles@;
            s.profiles.insert(0, p);
            assert(views(s.profiles@) == seq![p@] + views(before));
            s.active = "Configured".to_string();
            s.default = "Configured".to_string();
            true
        },
        None => false,
    }
}

fn honour(s: &mut Store, cfg: &Config) -> (saved: bool)
    ensures
        final(s)@ == honoured(old(s)@, cfg@),
        saved == wants_other(old(s)@, cfg@),
{
    match &cfg.profile {
        Some(name) => {
            if s.get(name.as_str()).is_some() && !same(s.active.as_str(), name.as_str()) {
                s.active = name.clone();
                true
            } else {
                false
            }
        },
        None => false,
    }
}

/// The store to run with, and whether it is to be saved. `fresh` says that no store was there.
pub fn start_store(stored: Option<Store>, fresh: bool, cfg: &Config) -> (r: (Store, bool))
    ensures
        r.0@ == starting_store(opt_store(stored), fresh, cfg@),
        r.1 == ((fresh && cfg@.perf_profile is Some) || wants_other(
            folded(loaded(opt_store(stored)), cfg@, fresh),
            cfg@,
        )),
{
    let mut s = load(stored);
    let a = fold(&mut s, cfg, fresh);
    let b = honour(&mut s, cfg);
    (s, a || b)
}

/// The curve that the loop follows: that of the active profile, or else the configured one.
pub open spec fn curve_in_use(s: StoreView, cfg: ConfigView) -> Seq<(i32, i32)> {
    match lookup(s.profiles, s.active) {
        Some(p) => p.curve,
        None => cfg.curve,
    }
}

/// The curve that the loop follows.
pub fn active_curve(s: &Store, cfg: &Config) -> (r: Vec<(i32, i32)>)
    ensures
        r@ == curve_in_use(s@, cfg@),
{
    match s.active_profile() {
        Some(p) => copy_curve(&p.curve),
        None => copy_curve(&cfg.curve),
    }
}

/// One tick of the daemon: the curve of the active profile, the hysteresis of the
/// configuration, and the override that a client may have set.
pub fn run_tick<B: EcBackend>(
    dev: &mut TuxedoIo<B>,
    st: &mut ControlState,
    manual: Option<i32>,
    store: &Store,
    cfg: &Config,
    tuning: Tuning,
) -> (t: Tick)
    ensures
        ticked(
            *old(dev),
            old(st)@,
            curve_in_use(store@, cfg@),
            cfg@.hysteresis_c,
            tuning,
            manual,
            *final(dev),
            final(st)@,
            t,
        ),
{
    let curve = active_curve(store, cfg);
    tick(dev, st, curve.as_slice(), cfg.hysteresis_c, tuning, manual)
}

/// Hands the fans back to the EC, unless the board is read-only: then they were never taken.
/// Whether that works is not looked at.
pub fn stop<B: EcBackend>(dev: &mut TuxedoIo<B>, read_only: bool)
    ensures
        read_only ==> *final(dev) == *old(dev),
        !read_only ==> exists|r: Result<(), EcError>| #[trigger]
            old(dev).called(W_UW_FANAUTO, *final(dev), r),
{
    if !read_only {
        let r = dev.restore_auto();
        assert(old(dev).called(W_UW_FANAUTO, *dev, r));
    }
}

proof fn lemma_lookup_front(p: ProfileView, ps: Seq<ProfileView>, name: Seq<char>)
    ensures
        lookup(seq![p] + ps, name) == if p.name == name {
            Some(p)
        } else {
            lookup(ps, name)
        },
    decreases ps.len(),
{
    let s = seq![p] + ps;
    if ps.len() == 0 {
        assert(s.drop_last() == Seq::<ProfileView>::empty());
        assert(s.last() == p);
        assert(lookup(s.drop_last(), name) is None);
        assert(lookup(ps, name) is None);
    } else {
        lemma_lookup_front(p, ps.drop_last(), name);
        assert(s.drop_last() == seq![p] + ps.drop_last());
        assert(s.last() == ps.last());
    }
}

/// The daemon starts with every built-in profile, whatever was stored and configured.
pub proof fn starts_with_builtins(stored: Option<StoreView>, fresh: bool, cfg: ConfigView)
    ensures
        has_builtins(starting_store(stored, fresh, cfg).profiles),
{
    let s = loaded(stored);
    loading_seeds_builtins(stored, s.active);
    if fresh && cfg.perf_profile is Some {
        assert forall|name: Seq<char>| #[trigger] builtin_name(name) implies lookup(
            seq![configured(cfg)] + s.profiles,
            name,
        ) is Some by {
            lemma_lookup_front(configured(cfg), s.profiles, name);
        }
    }
}

/// The daemon starts with the configured profile active, where one of that name exists.
pub proof fn starts_as_configured(stored: Option<StoreView>, fresh: bool, cfg: ConfigView)
    requires
        cfg.profile is Some,
        lookup(starting_store(stored, fresh, cfg).profiles, cfg.profile->0) is Some,
    ensures
        starting_store(stored, fresh, cfg).active == cfg.profile->0,
{
}

/// On the first run the active profile exists; it is the configured one where the configuration
/// describes one and names no other.
pub proof fn first_run_has_active(cfg: ConfigView)
    ensures
        ({
            let s = starting_store(None, true, cfg);
            &&& lookup(s.profiles, s.active) is Some
            &&& cfg.perf_profile is Some && cfg.profile is None ==> lookup(s.profiles, s.active)
                == Some(configured(cfg))
        }),
{
    let bs = builtin_profiles();
    assert(lookup(bs, "Quiet"@) is Some) by {
        assert(bs.drop_last().drop_last().last().name == "Quiet"@);
        assert(lookup(bs.drop_last().drop_last(), "Quiet"@) is Some);
        assert(lookup(bs.drop_last(), "Quiet"@) is Some);
    }
    if cfg.perf_profile is Some {
        lemma_lookup_front(configured(cfg), bs, "Configured"@);
        lemma_lookup_front(configured(cfg), bs, "Quiet"@);
    }
}

/// On the first run no two profiles have one name.
pub proof fn first_run_names_unique(cfg: ConfigView)
    ensures
        unique_names(starting_store(None, true, cfg).profiles),
{
    reveal_strlit("Configured");
    reveal_strlit("Max Energy Save");
    reveal_strlit("Quiet");
    reveal_strlit("Office");
    reveal_strlit("High Performance");
    let bs = builtin_profiles();
    assert(bs[0].name.len() == 15 && bs[1].name.len() == 5 && bs[2].name.len() == 6
        && bs[3].name.len() == 16);
    let ps = starting_store(None, true, cfg).profiles;
    if cfg.perf_profile is Some {
        assert(ps[0].name.len() == 10);
        assert(ps[1] == bs[0] && ps[2] == bs[1] && ps[3] == bs[2] && ps[4] == bs[3]);
    }
}

/// The state to start from tells what was found: the board, the backlight with its highest
/// brightness, the charging profiles with the current one. Nothing is overridden, and nothing
/// has been measured.
pub proof fn start_tells_what_was_found(
    p: Probe,
    dir: Seq<char>,
    n: i32,
    all: Seq<char>,
    cur: Seq<char>,
    kbd: Option<(Seq<char>, i32)>,
    charging: Option<(Seq<char>, Seq<char>)>,
)
    ensures
        started(p, kbd, charging).model_id == p.model_id,
        started(p, kbd, charging).read_only == p.read_only,
        started(p, kbd, charging).manual is None,
        started(p, kbd, charging).profile.len() == 0,
        started(p, kbd, charging).cpu_temp == 0 && started(p, kbd, charging).gpu_temp == 0,
        started(p, kbd, charging).cpu_fan == 0 && started(p, kbd, charging).gpu_fan == 0,
        started(p, kbd, charging).mode == 0 && started(p, kbd, charging).curve_pct == 0,
        started(p, kbd, charging).kbd_cur == 0,
        started(p, Some((dir, n)), charging).kbd_dir == Some(dir),
        started(p, Some((dir, n)), charging).kbd_max == n,
        started(p, None, charging).kbd_dir is None,
        started(p, None, charging).kbd_max == 0,
        started(p, kbd, Some((all, cur))).charges == all,
        started(p, kbd, Some((all, cur))).charge == cur,
        started(p, kbd, None).charges.len() == 0,
        started(p, kbd, None).charge.len() == 0,
{
}

/// A configured profile has the mode, curve, brightness and charging profile that the
/// configuration names.
pub proof fn configured_profile_is_the_configuration(cfg: ConfigView)
    requires
        cfg.perf_profile is Some,
    ensures
        configured(cfg).name == "Configured"@,
        Some(configured(cfg).perf) == cfg.perf_profile,
        configured(cfg).curve == cfg.curve,
        configured(cfg).kbd == cfg.kbd_brightness,
        configured(cfg).charge == cfg.charge_profile,
{
}

/// Only the first run takes the configuration for a profile, which then stands first, active and
/// default; every later run takes what was stored. Either way the profiles of the store are kept
/// in their order.
pub proof fn configuration_is_folded_once(
    stored: Option<StoreView>,
    fresh: bool,
    cfg: ConfigView,
)
    ensures
        ({
            let s = loaded(stored);
            let r = starting_store(stored, fresh, cfg);
            let added = fresh && cfg.perf_profile is Some;
            &&& !added ==> r.profiles == s.profiles && r.default == s.default
            &&& added ==> r.profiles.len() == s.profiles.len() + 1 && r.profiles.skip(1)
                == s.profiles && r.profiles[0] == configured(cfg) && r.default == "Configured"@
            &&& added && cfg.profile is None ==> r.active == "Configured"@
            &&& !added && cfg.profile is None ==> r.active == s.active
            &&& cfg.profile is Some && lookup(r.profiles, cfg.profile->0) is None ==> r.active
                == if added {
                "Configured"@
            } else {
                s.active
            }
        }),
{
    let s = loaded(stored);
    if fresh && cfg.perf_profile is Some {
        assert((seq![configured(cfg)] + s.profiles).skip(1) == s.profiles);
    }
}

/// The curve in use is that of the active profile, and the configured one where no profile of
/// that name exists.
pub proof fn active_profile_gives_curve(s: StoreView, cfg: ConfigView)
    ensures
        lookup(s.profiles, s.active) is Some ==> curve_in_use(s, cfg) == lookup(
            s.profiles,
            s.active,
        )->0.curve,
        lookup(s.profiles, s.active) is None ==> curve_in_use(s, cfg) == cfg.curve,
{
}

} // verus!
