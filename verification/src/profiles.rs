//! Named profiles: a performance mode, a fan curve, and optionally a keyboard brightness and
//! a charging profile.

use crate::text::same;
use vstd::prelude::*;

verus! {

/// A named profile.
#[derive(Debug)]
pub struct Profile {
    pub name: String,
    /// Name of the performance mode: power_save, enthusiast or overboost.
    pub perf: String,
    /// Points of temperature in degrees Celsius and duty in percent, ascending.
    pub curve: Vec<(i32, i32)>,
    pub kbd: Option<i32>,
    pub charge: Option<String>,
}

/// What a [`Profile`] holds.
#[verifier::ext_equal]
pub struct ProfileView {
    pub name: Seq<char>,
    pub perf: Seq<char>,
    pub curve: Seq<(i32, i32)>,
    pub kbd: Option<i32>,
    pub charge: Option<Seq<char>>,
}

/// The text of an optional string.
pub open spec fn opt_text(s: Option<String>) -> Option<Seq<char>> {
    match s {
        Some(s) => Some(s@),
        None => None,
    }
}

/// A copy of an optional string.
pub fn copy_opt(s: &Option<String>) -> (r: Option<String>)
    ensures
        opt_text(r) == opt_text(*s),
{
    match s {
        Some(s) => Some(s.clone()),
        None => None,
    }
}

/// A copy of a fan curve.
pub fn copy_curve(c: &Vec<(i32, i32)>) -> (r: Vec<(i32, i32)>)
    ensures
        r@ == c@,
{
    let mut r: Vec<(i32, i32)> = Vec::new();
    for i in 0..c.len()
        invariant
            r@ == c@.take(i as int),
    {
        r.push(c[i]);
        assert(c@.take(i + 1) == c@.take(i as int).push(c@[i as int]));
    }
    assert(c@.take(c@.len() as int) == c@);
    r
}

impl View for Profile {
    type V = ProfileView;

    open spec fn view(&self) -> ProfileView {
        ProfileView {
            name: self.name@,
            perf: self.perf@,
            curve: self.curve@,
            kbd: self.kbd,
            charge: opt_text(self.charge),
        }
    }
}

impl Clone for Profile {
    fn clone(&self) -> (r: Self)
        ensures
            r@ == self@,
    {
        Profile {
            name: self.name.clone(),
            perf: self.perf.clone(),
            curve: copy_curve(&self.curve),
            kbd: self.kbd,
            charge: copy_opt(&self.charge),
        }
    }
}

/// What a sequence of profiles holds.
pub open spec fn views(ps: Seq<Profile>) -> Seq<ProfileView> {
    ps.map_values(|p: Profile| p@)
}

/// The profiles of a machine, with the names of the active and of the default one.
pub struct Store {
    pub active: String,
    pub default: String,
    pub profiles: Vec<Profile>,
}

/// What a [`Store`] holds.
#[verifier::ext_equal]
pub struct StoreView {
    pub active: Seq<char>,
    pub default: Seq<char>,
    pub profiles: Seq<ProfileView>,
}

impl View for Store {
    type V = StoreView;

    open spec fn view(&self) -> StoreView {
        StoreView {
            active: self.active@,
            default: self.default@,
            profiles: views(self.profiles@),
        }
    }
}

impl Clone for Store {
    fn clone(&self) -> (r: Self)
        ensures
            r@ == self@,
    {
        let mut profiles: Vec<Profile> = Vec::new();
        for i in 0..self.profiles.len()
            invariant
                views(profiles@) == views(self.profiles@).take(i as int),
        {
            let ghost before = profiles@;
            let p = self.profiles[i].clone();
            profiles.push(p);
            proof {
                let all = views(self.profiles@);
                assert(views(profiles@) == views(before).push(p@));
                assert(all.take(i + 1) == all.take(i as int).push(all[i as int]));
            }
        }
        assert(views(self.profiles@).take(self.profiles@.len() as int) == views(self.profiles@));
        Store { active: self.active.clone(), default: self.default.clone(), profiles }
    }
}

/// The first profile of that name.
pub open spec fn lookup(ps: Seq<ProfileView>, name: Seq<char>) -> Option<ProfileView>
    decreases ps.len(),
{
    if ps.len() == 0 {
        None
    } else if lookup(ps.drop_last(), name) is Some {
        lookup(ps.drop_last(), name)
    } else if ps.last().name == name {
        Some(ps.last())
    } else {
        None
    }
}

/// Whether a profile has another name.
pub open spec fn named_otherwise(name: Seq<char>) -> spec_fn(ProfileView) -> bool {
    |p: ProfileView| p.name != name
}

/// The profiles of every other name.
pub open spec fn without(ps: Seq<ProfileView>, name: Seq<char>) -> Seq<ProfileView> {
    ps.filter(named_otherwise(name))
}

/// The profiles with `p` in place of every one of its name, at the end.
pub open spec fn with_profile(ps: Seq<ProfileView>, p: ProfileView) -> Seq<ProfileView> {
    without(ps, p.name).push(p)
}

/// The profiles with each of `qs` put in, in order.
pub open spec fn with_profiles(ps: Seq<ProfileView>, qs: Seq<ProfileView>) -> Seq<ProfileView>
    decreases qs.len(),
{
    if qs.len() == 0 {
        ps
    } else {
        with_profile(with_profiles(ps, qs.drop_last()), qs.last())
    }
}

proof fn lemma_lookup_hit(ps: Seq<ProfileView>, i: int, name: Seq<char>)
    requires
        0 <= i < ps.len(),
        ps[i].name == name,
        forall|j: int| 0 <= j < i ==> (#[trigger] ps[j]).name != name,
    ensures
        lookup(ps, name) == Some(ps[i]),
    decreases ps.len(),
{
    if i == ps.len() - 1 {
        lemma_lookup_miss(ps.drop_last(), name);
    } else {
        lemma_lookup_hit(ps.drop_last(), i, name);
    }
}

proof fn lemma_lookup_miss(ps: Seq<ProfileView>, name: Seq<char>)
    requires
        forall|j: int| 0 <= j < ps.len() ==> (#[trigger] ps[j]).name != name,
    ensures
        lookup(ps, name) is None,
    decreases ps.len(),
{
    if ps.len() > 0 {
        assert forall|j: int| 0 <= j < ps.drop_last().len() implies (#[trigger]
        ps.drop_last()[j]).name != name by {
            assert(ps.drop_last()[j] == ps[j]);
        }
        lemma_lookup_miss(ps.drop_last(), name);
    }
}

/// The position of the first profile of that name.
fn find(ps: &Vec<Profile>, name: &str) -> (r: Option<usize>)
    ensures
        r is Some ==> r->0 < ps@.len() && lookup(views(ps@), name@) == Some(ps@[r->0 as int]@),
        r is None ==> lookup(views(ps@), name@) is None,
{
    for i in 0..ps.len()
        invariant
            forall|j: int| 0 <= j < i ==> (#[trigger] views(ps@)[j]).name != name@,
    {
        assert(views(ps@)[i as int] == ps@[i as int]@);
        if same(ps[i].name.as_str(), name) {
            proof {
                lemma_lookup_hit(views(ps@), i as int, name@);
            }
            return Some(i);
        }
    }
    proof {
        lemma_lookup_miss(views(ps@), name@);
    }
    None
}

proof fn lemma_filter_push(s: Seq<ProfileView>, p: ProfileView, f: spec_fn(ProfileView) -> bool)
    ensures
        s.push(p).filter(f) == if f(p) {
            s.filter(f).push(p)
        } else {
            s.filter(f)
        },
{
    reveal(Seq::filter);
    assert(s.push(p).drop_last() == s);
}

/// Removes every profile of that name.
fn remove_named(ps: &mut Vec<Profile>, name: &str)
    ensures
        views(final(ps)@) == without(views(old(ps)@), name@),
{
    let ghost all = views(ps@);
    let ghost f = named_otherwise(name@);
    let mut i: usize = 0;
    let ghost mut seen: int = 0;
    proof {
        reveal(Seq::filter);
        assert(all.take(0).filter(f) == Seq::<ProfileView>::empty());
        assert(all.take(0).filter(f) + all.skip(0) == all);
    }
    while i < ps.len()
        invariant
            i <= ps@.len(),
            0 <= seen <= all.len(),
            f == named_otherwise(name@),
            i == all.take(seen).filter(f).len(),
            views(ps@) == all.take(seen).filter(f) + all.skip(seen),
        decreases ps@.len() - i,
    {
        let ghost kept = all.take(seen).filter(f);
        let ghost p = all[seen];
        proof {
            assert(views(ps@).len() == ps@.len());
            assert(views(ps@)[i as int] == p);
            assert(views(ps@)[i as int] == ps@[i as int]@);
            assert(all.take(seen + 1) == all.take(seen).push(p));
            lemma_filter_push(all.take(seen), p, f);
            assert(all.skip(seen).skip(1) == all.skip(seen + 1));
        }
        if same(ps[i].name.as_str(), name) {
            let ghost before = ps@;
            ps.remove(i);
            proof {
                assert(views(ps@) == views(before).remove(i as int));
                assert((kept + all.skip(seen)).remove(i as int) == kept + all.skip(seen + 1));
            }
        } else {
            i += 1;
            proof {
                assert(kept + all.skip(seen) == kept.push(p) + all.skip(seen + 1));
            }
        }
        proof {
            seen = seen + 1;
        }
    }
    proof {
        let kept = all.take(seen).filter(f);
        assert(views(ps@).len() == ps@.len());
        assert(all.skip(seen).len() == 0);
        assert(kept + all.skip(seen) == kept);
        assert(all.take(seen) == all);
    }
}

impl Store {
    /// The profile of that name.
    pub fn get(&self, name: &str) -> (r: Option<&Profile>)
        ensures
            match r {
                Some(p) => lookup(self@.profiles, name@) == Some(p@),
                None => lookup(self@.profiles, name@) is None,
            },
    {
        match find(&self.profiles, name) {
            Some(i) => Some(&self.profiles[i]),
            None => None,
        }
    }

    /// The active profile.
    pub fn active_profile(&self) -> (r: Option<&Profile>)
        ensures
            match r {
                Some(p) => lookup(self@.profiles, self@.active) == Some(p@),
                None => lookup(self@.profiles, self@.active) is None,
            },
    {
        self.get(self.active.as_str())
    }

    /// Removes every profile of that name.
    pub fn remove(&mut self, name: &str)
        ensures
            final(self)@ == (StoreView {
                profiles: without(old(self)@.profiles, name@),
                ..old(self)@
            }),
    {
        remove_named(&mut self.profiles, name);
    }

    /// Puts `p` at the end, in place of every profile of its name.
    pub fn put(&mut self, p: Profile)
        ensures
            final(self)@ == (StoreView {
                profiles: with_profile(old(self)@.profiles, p@),
                ..old(self)@
            }),
    {
        remove_named(&mut self.profiles, p.name.as_str());
        let ghost kept = self.profiles@;
        self.profiles.push(p);
        assert(views(self.profiles@) == views(kept).push(p@));
    }
}

/// The fan curve of a preset; a mild curve for a name that is none.
pub open spec fn preset(name: Seq<char>) -> Seq<(i32, i32)> {
    if name == "Silent"@ {
        seq![(0, 0), (60, 0), (61, 20), (70, 30), (85, 65), (100, 100)]
    } else if name == "Quiet"@ {
        seq![(0, 0), (50, 0), (51, 20), (70, 33), (85, 70), (100, 100)]
    } else if name == "Balanced"@ {
        seq![(0, 0), (45, 0), (46, 20), (50, 20), (70, 50), (85, 75), (100, 100)]
    } else if name == "Cool"@ {
        seq![(0, 0), (39, 0), (40, 20), (50, 25), (70, 50), (85, 85), (100, 100)]
    } else if name == "Freezy"@ {
        seq![(0, 20), (50, 40), (70, 55), (85, 85), (100, 100)]
    } else {
        seq![(0, 0), (50, 0), (62, 24), (80, 60), (90, 100)]
    }
}

/// The fan curve of a preset.
pub fn fan(name: &str) -> (r: Vec<(i32, i32)>)
    ensures
        r@ == preset(name@),
{
    let r: Vec<(i32, i32)> = if same(name, "Silent") {
        vec![(0, 0), (60, 0), (61, 20), (70, 30), (85, 65), (100, 100)]
    } else if same(name, "Quiet") {
        vec![(0, 0), (50, 0), (51, 20), (70, 33), (85, 70), (100, 100)]
    } else if same(name, "Balanced") {
        vec![(0, 0), (45, 0), (46, 20), (50, 20), (70, 50), (85, 75), (100, 100)]
    } else if same(name, "Cool") {
        vec![(0, 0), (39, 0), (40, 20), (50, 25), (70, 50), (85, 85), (100, 100)]
    } else if same(name, "Freezy") {
        vec![(0, 20), (50, 40), (70, 55), (85, 85), (100, 100)]
    } else {
        vec![(0, 0), (50, 0), (62, 24), (80, 60), (90, 100)]
    };
    assert(r@ == preset(name@));
    r
}

/// A profile that is made of a performance mode and a fan preset.
pub open spec fn built(
    name: Seq<char>,
    perf: Seq<char>,
    curve: Seq<char>,
    kbd: Option<i32>,
) -> ProfileView {
    ProfileView { name, perf, curve: preset(curve), kbd, charge: None }
}

/// The built-in profiles.
pub open spec fn builtin_profiles() -> Seq<ProfileView> {
    seq![
        built("Max Energy Save"@, "power_save"@, "Silent"@, Some(0)),
        built("Quiet"@, "power_save"@, "Quiet"@, None),
        built("Office"@, "enthusiast"@, "Quiet"@, None),
        built("High Performance"@, "overboost"@, "Balanced"@, None),
    ]
}

/// Whether a built-in profile has that name.
pub open spec fn builtin_name(name: Seq<char>) -> bool {
    lookup(builtin_profiles(), name) is Some
}

fn build(name: &str, perf: &str, curve: &str, kbd: Option<i32>) -> (p: Profile)
    ensures
        p@ == built(name@, perf@, curve@, kbd),
{
    Profile { name: name.to_string(), perf: perf.to_string(), curve: fan(curve), kbd, charge: None }
}

/// The built-in profiles.
pub fn builtins() -> (r: Vec<Profile>)
    ensures
        views(r@) == builtin_profiles(),
{
    let mut r: Vec<Profile> = Vec::new();
    r.push(build("Max Energy Save", "power_save", "Silent", Some(0)));
    r.push(build("Quiet", "power_save", "Quiet", None));
    r.push(build("Office", "enthusiast", "Quiet", None));
    r.push(build("High Performance", "overboost", "Balanced", None));
    assert(views(r@) == builtin_profiles());
    r
}

/// Whether a built-in profile has that name. Such a profile cannot be deleted.
pub fn is_builtin(name: &str) -> (r: bool)
    ensures
        r == builtin_name(name@),
{
    find(&builtins(), name).is_some()
}

/// The store of a machine that has none yet.
pub open spec fn first_store() -> StoreView {
    StoreView { active: "Quiet"@, default: "Quiet"@, profiles: builtin_profiles() }
}

/// The store of a machine that has none yet.
pub fn default_store() -> (r: Store)
    ensures
        r@ == first_store(),
{
    Store { active: "Quiet".to_string(), default: "Quiet".to_string(), profiles: builtins() }
}

/// The profiles with those of `bs` added whose names are missing.
pub open spec fn seeded(ps: Seq<ProfileView>, bs: Seq<ProfileView>) -> Seq<ProfileView>
    decreases bs.len(),
{
    if bs.len() == 0 {
        ps
    } else {
        let qs = seeded(ps, bs.drop_last());
        if lookup(qs, bs.last().name) is Some {
            qs
        } else {
            qs.push(bs.last())
        }
    }
}

/// The store that a machine starts with: what was stored, with the built-in profiles added
/// where they are missing, and with the default profile active where the active one is gone.
pub open spec fn loaded(stored: Option<StoreView>) -> StoreView {
    match stored {
        None => first_store(),
        Some(s) => {
            let ps = seeded(s.profiles, builtin_profiles());
            StoreView {
                active: if lookup(ps, s.active) is Some {
                    s.active
                } else {
                    s.default
                },
                default: s.default,
                profiles: ps,
            }
        },
    }
}

/// What an optional store holds.
pub open spec fn opt_store(s: Option<Store>) -> Option<StoreView> {
    match s {
        Some(s) => Some(s@),
        None => None,
    }
}

/// The store that a machine starts with, from what was stored. Nothing stored, or nothing
/// that can be read, gives the store of a machine that has none.
pub fn load(stored: Option<Store>) -> (r: Store)
    ensures
        r@ == loaded(opt_store(stored)),
{
    let mut s = match stored {
        Some(s) => s,
        None => {
            return default_store();
        },
    };
    let ghost first = s@;
    let bs = builtins();
    assert(builtin_profiles().take(0) == Seq::<ProfileView>::empty());
    for i in 0..bs.len()
        invariant
            views(bs@) == builtin_profiles(),
            s@.active == first.active,
            s@.default == first.default,
            s@.profiles == seeded(first.profiles, builtin_profiles().take(i as int)),
    {
        let ghost before = s.profiles@;
        proof {
            let t = builtin_profiles().take(i + 1);
            assert(t.drop_last() == builtin_profiles().take(i as int));
            assert(t.last() == views(bs@)[i as int]);
            assert(views(bs@)[i as int] == bs@[i as int]@);
        }
        if find(&s.profiles, bs[i].name.as_str()).is_none() {
            s.profiles.push(bs[i].clone());
            assert(views(s.profiles@) == views(before).push(bs@[i as int]@));
        }
    }
    assert(views(bs@).len() == bs@.len());
    assert(builtin_profiles().take(bs@.len() as int) == builtin_profiles());
    if s.get(s.active.as_str()).is_none() {
        s.active = s.default.clone();
    }
    s
}

impl Store {
    /// Puts each of `qs` in place of every profile of its name, in order.
    pub fn put_all(&mut self, qs: Vec<Profile>)
        ensures
            final(self)@ == (StoreView {
                profiles: with_profiles(old(self)@.profiles, views(qs@)),
                ..old(self)@
            }),
    {
        let ghost first = self@;
        let n = qs.len();
        assert(views(qs@).take(0) == Seq::<ProfileView>::empty());
        for i in 0..n
            invariant
                n == qs@.len(),
                self@ == (StoreView {
                    profiles: with_profiles(first.profiles, views(qs@).take(i as int)),
                    ..first
                }),
        {
            proof {
                let t = views(qs@).take(i + 1);
                assert(t.drop_last() == views(qs@).take(i as int));
                assert(t.last() == qs@[i as int]@);
            }
            self.put(qs[i].clone());
        }
        assert(views(qs@).take(n as int) == views(qs@));
    }
}

/// One point of an exported fan table.
pub struct TccFanEntry {
    pub temp: i32,
    pub speed: i32,
}

/// An exported custom fan curve.
pub struct TccCustomCurve {
    pub table_cpu: Vec<TccFanEntry>,
}

/// The fan part of an exported profile.
pub struct TccFan {
    pub fan_profile: Option<String>,
    pub custom_fan_curve: Option<TccCustomCurve>,
}

/// The performance part of an exported profile.
pub struct TccOdm {
    pub name: Option<String>,
}

/// A profile as TUXEDO Control Center exports it.
pub struct TccProfile {
    pub name: Option<String>,
    pub fan: Option<TccFan>,
    pub odm_profile: Option<TccOdm>,
}

/// Whether `s` is the id of a performance mode.
pub open spec fn perf_id(s: Seq<char>) -> bool {
    s == "power_save"@ || s == "enthusiast"@ || s == "overboost"@
}

/// The performance mode of an exported profile; enthusiast where it names none that is known.
pub open spec fn tcc_perf(odm: Option<TccOdm>) -> Seq<char> {
    match odm {
        Some(TccOdm { name: Some(n) }) => if perf_id(n@) {
            n@
        } else {
            "enthusiast"@
        },
        _ => "enthusiast"@,
    }
}

/// The points of an exported table.
pub open spec fn table_points(t: Seq<TccFanEntry>) -> Seq<(i32, i32)> {
    t.map_values(|e: TccFanEntry| (e.temp, e.speed))
}

/// The curve of an exported profile: the preset that it names, else its own points, else the
/// balanced preset.
pub open spec fn tcc_curve(fan: Option<TccFan>) -> Seq<(i32, i32)> {
    match fan {
        None => preset("Balanced"@),
        Some(f) => match f.fan_profile {
            Some(n) if n@ != "Custom"@ => preset(n@),
            _ => match f.custom_fan_curve {
                Some(c) if c.table_cpu@.len() > 0 => table_points(c.table_cpu@),
                _ => preset("Balanced"@),
            },
        },
    }
}

/// The profile that an exported one becomes.
pub open spec fn tcc_profile(t: TccProfile) -> ProfileView {
    ProfileView {
        name: t.name->0@,
        perf: tcc_perf(t.odm_profile),
        curve: tcc_curve(t.fan),
        kbd: None,
        charge: None,
    }
}

/// The profiles that exported ones become; those without a name are left out.
pub open spec fn tcc_profiles(ts: Seq<TccProfile>) -> Seq<ProfileView> {
    ts.filter(|t: TccProfile| t.name is Some).map_values(|t: TccProfile| tcc_profile(t))
}

fn import_perf(odm: &Option<TccOdm>) -> (r: String)
    ensures
        r@ == tcc_perf(*odm),
{
    match odm {
        Some(TccOdm { name: Some(n) }) => {
            let s = n.as_str();
            if same(s, "power_save") || same(s, "enthusiast") || same(s, "overboost") {
                return n.clone();
            }
        },
        _ => {},
    }
    "enthusiast".to_string()
}

fn import_points(t: &Vec<TccFanEntry>) -> (r: Vec<(i32, i32)>)
    ensures
        r@ == table_points(t@),
{
    let mut r: Vec<(i32, i32)> = Vec::new();
    for i in 0..t.len()
        invariant
            r@ == table_points(t@.take(i as int)),
    {
        r.push((t[i].temp, t[i].speed));
        assert(t@.take(i + 1) == t@.take(i as int).push(t@[i as int]));
        assert(r@ == table_points(t@.take(i + 1)));
    }
    assert(t@.take(t@.len() as int) == t@);
    r
}

fn import_curve(f: &Option<TccFan>) -> (r: Vec<(i32, i32)>)
    ensures
        r@ == tcc_curve(*f),
{
    match f {
        Some(f) => {
            if let Some(n) = &f.fan_profile {
                if !same(n.as_str(), "Custom") {
                    return fan(n.as_str());
                }
            }
            if let Some(c) = &f.custom_fan_curve {
                if c.table_cpu.len() > 0 {
                    return import_points(&c.table_cpu);
                }
            }
        },
        None => {},
    }
    fan("Balanced")
}

fn import_profiles(ts: &Vec<TccProfile>) -> (r: Vec<Profile>)
    ensures
        views(r@) == tcc_profiles(ts@),
{
    let ghost f = |t: TccProfile| t.name is Some;
    let ghost m = |t: TccProfile| tcc_profile(t);
    let mut r: Vec<Profile> = Vec::new();
    proof {
        reveal(Seq::filter);
        assert(ts@.take(0).filter(f).map_values(m) == Seq::<ProfileView>::empty());
    }
    for i in 0..ts.len()
        invariant
            f == (|t: TccProfile| t.name is Some),
            m == (|t: TccProfile| tcc_profile(t)),
            views(r@) == ts@.take(i as int).filter(f).map_values(m),
    {
        let t = &ts[i];
        let ghost before = r@;
        proof {
            reveal(Seq::filter);
            assert(ts@.take(i + 1).drop_last() == ts@.take(i as int));
            assert(ts@.take(i + 1).last() == *t);
        }
        if let Some(name) = &t.name {
            let p = Profile {
                name: name.clone(),
                perf: import_perf(&t.odm_profile),
                curve: import_curve(&t.fan),
                kbd: None,
                charge: None,
            };
            r.push(p);
            proof {
                let kept = ts@.take(i as int).filter(f);
                assert(p@ == tcc_profile(*t));
                assert(views(r@) == views(before).push(p@));
                assert(kept.push(*t).map_values(m) == kept.map_values(m).push(p@));
            }
        }
    }
    assert(ts@.take(ts@.len() as int) == ts@);
    r
}

/// The profiles of a TUXEDO Control Center export. An export that could not be parsed gives
/// the parser's message.
pub fn import_tcc(export: Result<Vec<TccProfile>, String>) -> (r: Result<Vec<Profile>, String>)
    ensures
        match export {
            Ok(ts) => r is Ok && views(r->Ok_0@) == tcc_profiles(ts@),
            Err(e) => r is Err && r->Err_0@ == e@,
        },
{
    match export {
        Ok(ts) => Ok(import_profiles(&ts)),
        Err(e) => Err(e),
    }
}

proof fn lemma_without_push(ps: Seq<ProfileView>, p: ProfileView, name: Seq<char>)
    ensures
        without(ps.push(p), name) == if p.name != name {
            without(ps, name).push(p)
        } else {
            without(ps, name)
        },
{
    lemma_filter_push(ps, p, named_otherwise(name));
}

proof fn lemma_lookup_push(ps: Seq<ProfileView>, p: ProfileView, name: Seq<char>)
    ensures
        lookup(ps.push(p), name) == if lookup(ps, name) is Some {
            lookup(ps, name)
        } else if p.name == name {
            Some(p)
        } else {
            None
        },
{
    assert(ps.push(p).drop_last() == ps);
}

proof fn lemma_lookup_none(ps: Seq<ProfileView>, name: Seq<char>, i: int)
    requires
        lookup(ps, name) is None,
        0 <= i < ps.len(),
    ensures
        ps[i].name != name,
    decreases ps.len(),
{
    if i < ps.len() - 1 {
        lemma_lookup_none(ps.drop_last(), name, i);
    }
}

/// A profile that was removed is gone, and every other is found as before.
pub proof fn removed_is_gone(ps: Seq<ProfileView>, name: Seq<char>, other: Seq<char>)
    ensures
        lookup(without(ps, name), name) is None,
        other != name ==> lookup(without(ps, name), other) == lookup(ps, other),
    decreases ps.len(),
{
    if ps.len() == 0 {
        reveal(Seq::filter);
    } else {
        let rest = ps.drop_last();
        let p = ps.last();
        removed_is_gone(rest, name, other);
        assert(ps == rest.push(p));
        lemma_without_push(rest, p, name);
        lemma_lookup_push(without(rest, name), p, name);
        lemma_lookup_push(without(rest, name), p, other);
    }
}

/// A profile that was saved is found under its name, and every other is found as before.
pub proof fn saved_is_found(ps: Seq<ProfileView>, p: ProfileView, other: Seq<char>)
    ensures
        lookup(with_profile(ps, p), p.name) == Some(p),
        other != p.name ==> lookup(with_profile(ps, p), other) == lookup(ps, other),
{
    removed_is_gone(ps, p.name, other);
    lemma_lookup_push(without(ps, p.name), p, p.name);
    lemma_lookup_push(without(ps, p.name), p, other);
}

/// Whether no two profiles have one name.
pub open spec fn unique_names(ps: Seq<ProfileView>) -> bool {
    forall|i: int, j: int| 0 <= i < j < ps.len() ==> ps[i].name != ps[j].name
}

/// Removing profiles keeps the names unique.
pub proof fn removing_keeps_unique(ps: Seq<ProfileView>, name: Seq<char>)
    requires
        unique_names(ps),
    ensures
        unique_names(without(ps, name)),
    decreases ps.len(),
{
    if ps.len() == 0 {
        reveal(Seq::filter);
    } else {
        let rest = ps.drop_last();
        let p = ps.last();
        assert(ps == rest.push(p));
        assert forall|i: int, j: int| 0 <= i < j < rest.len() implies rest[i].name
            != rest[j].name by {
            assert(rest[i] == ps[i] && rest[j] == ps[j]);
        }
        removing_keeps_unique(rest, name);
        lemma_without_push(rest, p, name);
        assert forall|j: int| 0 <= j < rest.len() implies (#[trigger] rest[j]).name != p.name by {
            assert(rest[j] == ps[j]);
        }
        lemma_lookup_miss(rest, p.name);
        if p.name != name {
            removed_is_gone(rest, name, p.name);
            lemma_push_unique(without(rest, name), p);
        }
    }
}

proof fn lemma_push_unique(ps: Seq<ProfileView>, p: ProfileView)
    requires
        unique_names(ps),
        lookup(ps, p.name) is None,
    ensures
        unique_names(ps.push(p)),
{
    let qs = ps.push(p);
    assert forall|i: int, j: int| 0 <= i < j < qs.len() implies qs[i].name != qs[j].name by {
        if j == ps.len() {
            lemma_lookup_none(ps, p.name, i);
        }
    }
}

/// Saving a profile keeps the names unique.
pub proof fn saving_keeps_unique(ps: Seq<ProfileView>, p: ProfileView)
    requires
        unique_names(ps),
    ensures
        unique_names(with_profile(ps, p)),
{
    removing_keeps_unique(ps, p.name);
    removed_is_gone(ps, p.name, p.name);
    lemma_push_unique(without(ps, p.name), p);
}

/// Importing profiles keeps the names unique, even where the import itself repeats a name.
pub proof fn importing_keeps_unique(ps: Seq<ProfileView>, qs: Seq<ProfileView>)
    requires
        unique_names(ps),
    ensures
        unique_names(with_profiles(ps, qs)),
    decreases qs.len(),
{
    if qs.len() > 0 {
        importing_keeps_unique(ps, qs.drop_last());
        saving_keeps_unique(with_profiles(ps, qs.drop_last()), qs.last());
    }
}

/// Whether every built-in profile name is taken.
pub open spec fn has_builtins(ps: Seq<ProfileView>) -> bool {
    forall|name: Seq<char>| #[trigger] builtin_name(name) ==> lookup(ps, name) is Some
}

/// Saving a profile removes no built-in name, not even where it replaces a built-in profile.
pub proof fn saving_keeps_builtins(ps: Seq<ProfileView>, p: ProfileView)
    requires
        has_builtins(ps),
    ensures
        has_builtins(with_profile(ps, p)),
{
    assert forall|name: Seq<char>| #[trigger] builtin_name(name) implies lookup(
        with_profile(ps, p),
        name,
    ) is Some by {
        saved_is_found(ps, p, name);
    }
}

/// Importing profiles removes no built-in name.
pub proof fn importing_keeps_builtins(ps: Seq<ProfileView>, qs: Seq<ProfileView>)
    requires
        has_builtins(ps),
    ensures
        has_builtins(with_profiles(ps, qs)),
    decreases qs.len(),
{
    if qs.len() > 0 {
        importing_keeps_builtins(ps, qs.drop_last());
        saving_keeps_builtins(with_profiles(ps, qs.drop_last()), qs.last());
    }
}

/// Removing a profile that is not built in removes no built-in name.
pub proof fn removing_keeps_builtins(ps: Seq<ProfileView>, name: Seq<char>)
    requires
        has_builtins(ps),
        !builtin_name(name),
    ensures
        has_builtins(without(ps, name)),
{
    assert forall|other: Seq<char>| #[trigger] builtin_name(other) implies lookup(
        without(ps, name),
        other,
    ) is Some by {
        removed_is_gone(ps, name, other);
    }
}

proof fn lemma_seeded_finds(ps: Seq<ProfileView>, bs: Seq<ProfileView>, name: Seq<char>)
    ensures
        lookup(ps, name) is Some ==> lookup(seeded(ps, bs), name) == lookup(ps, name),
        lookup(bs, name) is Some ==> lookup(seeded(ps, bs), name) is Some,
    decreases bs.len(),
{
    if bs.len() > 0 {
        lemma_seeded_finds(ps, bs.drop_last(), name);
        lemma_lookup_push(seeded(ps, bs.drop_last()), bs.last(), name);
    }
}

proof fn lemma_seeded_unique(ps: Seq<ProfileView>, bs: Seq<ProfileView>)
    requires
        unique_names(ps),
    ensures
        unique_names(seeded(ps, bs)),
    decreases bs.len(),
{
    if bs.len() > 0 {
        lemma_seeded_unique(ps, bs.drop_last());
        let qs = seeded(ps, bs.drop_last());
        if lookup(qs, bs.last().name) is None {
            lemma_push_unique(qs, bs.last());
        }
    }
}

proof fn lemma_seeded_full(ps: Seq<ProfileView>, bs: Seq<ProfileView>)
    requires
        forall|i: int| 0 <= i < bs.len() ==> lookup(ps, (#[trigger] bs[i]).name) is Some,
    ensures
        seeded(ps, bs) == ps,
    decreases bs.len(),
{
    if bs.len() > 0 {
        assert forall|i: int| 0 <= i < bs.drop_last().len() implies lookup(
            ps,
            (#[trigger] bs.drop_last()[i]).name,
        ) is Some by {
            assert(bs.drop_last()[i] == bs[i]);
        }
        lemma_seeded_full(ps, bs.drop_last());
        assert(lookup(ps, bs[bs.len() - 1].name) is Some);
    }
}

/// A loaded store has every built-in profile name, and keeps every stored profile as it was.
pub proof fn loading_seeds_builtins(stored: Option<StoreView>, name: Seq<char>)
    ensures
        has_builtins(loaded(stored).profiles),
        stored is Some && lookup(stored->0.profiles, name) is Some ==> lookup(
            loaded(stored).profiles,
            name,
        ) == lookup(stored->0.profiles, name),
        stored is Some && unique_names(stored->0.profiles) ==> unique_names(
            loaded(stored).profiles,
        ),
{
    if stored is Some {
        let ps = stored->0.profiles;
        assert forall|n: Seq<char>| #[trigger] builtin_name(n) implies lookup(
            loaded(stored).profiles,
            n,
        ) is Some by {
            lemma_seeded_finds(ps, builtin_profiles(), n);
        }
        lemma_seeded_finds(ps, builtin_profiles(), name);
        if unique_names(ps) {
            lemma_seeded_unique(ps, builtin_profiles());
        }
    }
}

/// In a loaded store the active profile exists, as long as the default one does.
pub proof fn loaded_active_exists(stored: Option<StoreView>)
    ensures
        lookup(loaded(stored).profiles, loaded(stored).default) is Some ==> lookup(
            loaded(stored).profiles,
            loaded(stored).active,
        ) is Some,
{
}

/// Loading a store that was loaded before changes nothing.
pub proof fn loading_twice(stored: Option<StoreView>)
    ensures
        loaded(Some(loaded(stored))) == loaded(stored),
{
    let s = loaded(stored);
    loading_seeds_builtins(stored, s.active);
    let bs = builtin_profiles();
    assert forall|i: int| 0 <= i < bs.len() implies lookup(
        s.profiles,
        (#[trigger] bs[i]).name,
    ) is Some by {
        if lookup(bs, bs[i].name) is None {
            lemma_lookup_none(bs, bs[i].name, i);
        }
        assert(builtin_name(bs[i].name));
    }
    lemma_seeded_full(s.profiles, bs);
    if stored is None {
        assert(bs[1].name == "Quiet"@);
        assert(lookup(s.profiles, "Quiet"@) is Some) by {
            if lookup(bs, bs[1].name) is None {
                lemma_lookup_none(bs, bs[1].name, 1);
            }
        }
    }
}

/// Every imported profile has a performance mode that the EC knows and a curve with at least
/// one point.
pub proof fn imports_are_usable(ts: Seq<TccProfile>, i: int)
    requires
        0 <= i < tcc_profiles(ts).len(),
    ensures
        perf_id(tcc_profiles(ts)[i].perf),
        tcc_profiles(ts)[i].curve.len() > 0,
{
}

/// An imported custom curve is the exported table, point by point: as many points, in the same
/// order, each the temperature and the speed of its entry.
pub proof fn imported_curve_is_the_table(t: TccProfile, f: TccFan, c: TccCustomCurve, i: int)
    requires
        t.fan == Some(f),
        f.fan_profile is None || f.fan_profile->0@ == "Custom"@,
        f.custom_fan_curve == Some(c),
        0 <= i < c.table_cpu@.len(),
    ensures
        tcc_profile(t).curve.len() == c.table_cpu@.len(),
        tcc_profile(t).curve[i].0 == c.table_cpu@[i].temp,
        tcc_profile(t).curve[i].1 == c.table_cpu@[i].speed,
        table_points(c.table_cpu@).len() == c.table_cpu@.len(),
        table_points(c.table_cpu@)[i] == (c.table_cpu@[i].temp, c.table_cpu@[i].speed),
{
}

/// A fan preset that an export names is preferred to its table; without either the curve is the
/// balanced preset.
pub proof fn imported_preset_is_preferred(t: TccProfile)
    ensures
        t.fan is Some && t.fan->0.fan_profile is Some && t.fan->0.fan_profile->0@ != "Custom"@
            ==> tcc_profile(t).curve == preset(t.fan->0.fan_profile->0@),
        t.fan is None ==> tcc_profile(t).curve == preset("Balanced"@),
        t.fan is Some && (t.fan->0.fan_profile is None || t.fan->0.fan_profile->0@ == "Custom"@)
            && (t.fan->0.custom_fan_curve is None
            || t.fan->0.custom_fan_curve->0.table_cpu@.len() == 0) ==> tcc_profile(t).curve
            == preset("Balanced"@),
{
}

/// An imported profile keeps its name and, where the EC knows it, its performance mode; every
/// other mode becomes enthusiast. It sets neither the keyboard nor charging.
pub proof fn imported_profile_keeps_name_and_mode(t: TccProfile)
    requires
        t.name is Some,
    ensures
        tcc_profile(t).name == t.name->0@,
        tcc_profile(t).kbd is None,
        tcc_profile(t).charge is None,
        ({
            let known = t.odm_profile is Some && t.odm_profile->0.name is Some && (
            t.odm_profile->0.name->0@ == "power_save"@ || t.odm_profile->0.name->0@
                == "enthusiast"@ || t.odm_profile->0.name->0@ == "overboost"@);
            &&& known ==> tcc_profile(t).perf == t.odm_profile->0.name->0@
            &&& !known ==> tcc_profile(t).perf == "enthusiast"@
        }),
{
}

/// Profiles are imported in their order, one for one, but for those without a name.
pub proof fn importing_goes_in_order(ts: Seq<TccProfile>, t: TccProfile)
    ensures
        tcc_profiles(Seq::empty()).len() == 0,
        t.name is None ==> tcc_profiles(ts.push(t)) == tcc_profiles(ts),
        t.name is Some ==> tcc_profiles(ts.push(t)) == tcc_profiles(ts).push(tcc_profile(t)),
{
    reveal(Seq::filter);
    let f = |t: TccProfile| t.name is Some;
    let m = |t: TccProfile| tcc_profile(t);
    assert(ts.push(t).drop_last() == ts);
    assert(ts.filter(f).push(t).map_values(m) == ts.filter(f).map_values(m).push(tcc_profile(t)));
}

/// The profile that is found is the first of that name; none is found only where no profile has
/// it.
pub proof fn found_is_the_first(ps: Seq<ProfileView>, name: Seq<char>)
    ensures
        lookup(ps, name) is None <==> (forall|i: int|
            0 <= i < ps.len() ==> (#[trigger] ps[i]).name != name),
        lookup(ps, name) is Some ==> exists|i: int|
            0 <= i < ps.len() && #[trigger] ps[i] == lookup(ps, name)->0 && ps[i].name == name
                && forall|j: int| 0 <= j < i ==> (#[trigger] ps[j]).name != name,
    decreases ps.len(),
{
    if ps.len() > 0 {
        let rest = ps.drop_last();
        found_is_the_first(rest, name);
        if lookup(rest, name) is Some {
            let i = choose|i: int|
                0 <= i < rest.len() && #[trigger] rest[i] == lookup(rest, name)->0 && rest[i].name
                    == name && forall|j: int| 0 <= j < i ==> (#[trigger] rest[j]).name != name;
            assert(ps[i] == rest[i]);
            assert forall|j: int| 0 <= j < i implies (#[trigger] ps[j]).name != name by {
                assert(rest[j] == ps[j]);
            }
        } else {
            assert forall|j: int| 0 <= j < rest.len() implies (#[trigger] ps[j]).name != name by {
                assert(rest[j] == ps[j]);
            }
            assert(ps[ps.len() - 1] == ps.last());
        }
    }
}

/// Removing a name leaves the profiles of every other name, all of them and in their order.
pub proof fn removing_leaves_the_others(ps: Seq<ProfileView>, name: Seq<char>)
    ensures
        without(ps, name) == ps.filter(|p: ProfileView| p.name != name),
        forall|i: int|
            0 <= i < without(ps, name).len() ==> (#[trigger] without(ps, name)[i]).name != name
                && ps.contains(without(ps, name)[i]),
        forall|i: int|
            0 <= i < ps.len() && (#[trigger] ps[i]).name != name ==> without(ps, name).contains(
                ps[i],
            ),
{
    let f = |p: ProfileView| p.name != name;
    assert(named_otherwise(name) =~= f);
    let r = ps.filter(f);
    assert forall|i: int| 0 <= i < r.len() implies (#[trigger] r[i]).name != name && ps.contains(
        r[i],
    ) by {
        ps.lemma_filter_pred(f, i);
        ps.lemma_filter_contains_rev(f, r[i]);
    }
    assert forall|i: int| 0 <= i < ps.len() && (#[trigger] ps[i]).name != name implies r.contains(
        ps[i],
    ) by {
        ps.lemma_filter_contains(f, i);
    }
}

/// A profile that is saved stands last, behind those of every other name.
pub proof fn saved_stands_last(ps: Seq<ProfileView>, p: ProfileView)
    ensures
        with_profile(ps, p).len() > 0,
        with_profile(ps, p).last() == p,
        with_profile(ps, p).drop_last() == ps.filter(|q: ProfileView| q.name != p.name),
{
    removing_leaves_the_others(ps, p.name);
    assert(with_profile(ps, p).drop_last() == without(ps, p.name));
}

/// Profiles are put in one after the other: nothing to put in changes nothing, and the last of
/// them is saved into what the others gave.
pub proof fn profiles_are_put_in_turn(
    ps: Seq<ProfileView>,
    qs: Seq<ProfileView>,
    q: ProfileView,
)
    ensures
        with_profiles(ps, Seq::empty()) == ps,
        with_profiles(ps, qs.push(q)).len() > 0,
        with_profiles(ps, qs.push(q)).last() == q,
        with_profiles(ps, qs.push(q)).drop_last() == with_profiles(ps, qs).filter(
            |p: ProfileView| p.name != q.name,
        ),
{
    assert(qs.push(q).drop_last() == qs);
    saved_stands_last(with_profiles(ps, qs), q);
}

/// Every preset starts at no heat and ends at full duty, rising in between: hotter points never
/// ask for less. A name that is no preset gives a mild curve.
pub proof fn presets_rise(name: Seq<char>, i: int, j: int)
    requires
        0 <= i < j < preset(name).len(),
    ensures
        preset(name)[i].0 < preset(name)[j].0,
        preset(name)[i].1 <= preset(name)[j].1,
        preset(name)[0].0 == 0,
        preset(name).last().1 == 100,
        preset(name).last().0 == 90 || preset(name).last().0 == 100,
        name != "Silent"@ && name != "Quiet"@ && name != "Balanced"@ && name != "Cool"@ && name
            != "Freezy"@ ==> preset(name) =~= seq![
            (0i32, 0i32),
            (50i32, 0i32),
            (62i32, 24i32),
            (80i32, 60i32),
            (90i32, 100i32),
        ],
{
}

/// Four names are built in, and no other.
pub proof fn four_names_are_built_in(name: Seq<char>)
    ensures
        builtin_name(name) <==> name == "Max Energy Save"@ || name == "Quiet"@ || name
            == "Office"@ || name == "High Performance"@,
{
    let bs = builtin_profiles();
    found_is_the_first(bs, name);
    assert(bs[0].name == "Max Energy Save"@ && bs[1].name == "Quiet"@ && bs[2].name == "Office"@
        && bs[3].name == "High Performance"@);
}

/// A built-in profile sets no charging, and only the one that saves energy sets the keyboard,
/// which it turns off.
pub proof fn builtins_leave_charging_alone(i: int)
    requires
        0 <= i < builtin_profiles().len(),
    ensures
        builtin_profiles()[i].charge is None,
        builtin_profiles()[i].name == "Max Energy Save"@ ==> builtin_profiles()[i].kbd == Some(
            0i32,
        ) && builtin_profiles()[i].perf == "power_save"@ && builtin_profiles()[i].curve == preset(
            "Silent"@,
        ),
        builtin_profiles()[i].name == "Quiet"@ ==> builtin_profiles()[i].kbd is None
            && builtin_profiles()[i].perf == "power_save"@ && builtin_profiles()[i].curve
            == preset("Quiet"@),
        builtin_profiles()[i].name == "Office"@ ==> builtin_profiles()[i].kbd is None
            && builtin_profiles()[i].perf == "enthusiast"@ && builtin_profiles()[i].curve
            == preset("Quiet"@),
        builtin_profiles()[i].name == "High Performance"@ ==> builtin_profiles()[i].kbd is None
            && builtin_profiles()[i].perf == "overboost"@ && builtin_profiles()[i].curve == preset(
            "Balanced"@,
        ),
{
    reveal_strlit("Max Energy Save");
    reveal_strlit("Quiet");
    reveal_strlit("Office");
    reveal_strlit("High Performance");
    assert("Max Energy Save"@.len() == 15 && "Quiet"@.len() == 5 && "Office"@.len() == 6
        && "High Performance"@.len() == 16);
}

proof fn lemma_seeded_extends(ps: Seq<ProfileView>, bs: Seq<ProfileView>, i: int)
    ensures
        ps.len() <= seeded(ps, bs).len(),
        seeded(ps, bs).take(ps.len() as int) == ps,
        ps.len() <= i < seeded(ps, bs).len() ==> bs.contains(seeded(ps, bs)[i]) && lookup(
            ps,
            seeded(ps, bs)[i].name,
        ) is None,
    decreases bs.len(),
{
    if bs.len() > 0 {
        let rest = bs.drop_last();
        let qs = seeded(ps, rest);
        lemma_seeded_extends(ps, rest, i);
        lemma_seeded_finds(ps, rest, bs.last().name);
        if lookup(qs, bs.last().name) is None {
            assert(qs.push(bs.last()).take(ps.len() as int) == qs.take(ps.len() as int));
        }
        if ps.len() <= i < seeded(ps, bs).len() {
            if i < qs.len() {
                let k = choose|k: int| 0 <= k < rest.len() && rest[k] == qs[i];
                assert(bs[k] == qs[i]);
            } else {
                assert(bs[bs.len() - 1] == seeded(ps, bs)[i]);
            }
        }
    } else {
        assert(ps.take(ps.len() as int) == ps);
    }
}

/// A loaded store holds what was stored, in its order, and behind it only built-in profiles
/// whose names were missing. Its default is the stored one, and the stored profile stays active
/// as long as it is there.
pub proof fn loading_adds_only_missing(s: StoreView, i: int)
    ensures
        ({
            let r = loaded(Some(s));
            &&& s.profiles.len() <= r.profiles.len()
            &&& r.profiles.take(s.profiles.len() as int) == s.profiles
            &&& s.profiles.len() <= i < r.profiles.len() ==> builtin_profiles().contains(
                r.profiles[i],
            ) && lookup(s.profiles, r.profiles[i].name) is None
            &&& r.default == s.default
            &&& lookup(r.profiles, s.active) is Some ==> r.active == s.active
            &&& lookup(r.profiles, s.active) is None ==> r.active == s.default
        }),
{
    lemma_seeded_extends(s.profiles, builtin_profiles(), i);
}

/// A machine without a store starts quiet, with the built-in profiles.
pub proof fn first_store_is_quiet()
    ensures
        loaded(None).active == "Quiet"@,
        loaded(None).default == "Quiet"@,
        loaded(None).profiles == builtin_profiles(),
{
}

/// A view shows the fields as they stand.
pub proof fn views_show_fields(p: Profile, s: Store, i: int)
    requires
        0 <= i < s.profiles@.len(),
    ensures
        p@.name == p.name@,
        p@.perf == p.perf@,
        p@.curve == p.curve@,
        p@.kbd == p.kbd,
        p.charge is None <==> p@.charge is None,
        p.charge is Some ==> p@.charge == Some(p.charge->0@),
        s@.active == s.active@,
        s@.default == s.default@,
        s@.profiles.len() == s.profiles@.len(),
        s@.profiles[i] == s.profiles@[i]@,
{
}

} // verus!
