//! The profile store, the built-in profiles and the import of foreign ones.

use tuxedo_control::profiles::{
    builtins, default_store, fan, import_tcc, is_builtin, load, Profile, Store, TccCustomCurve,
    TccFan, TccFanEntry, TccOdm, TccProfile,
};

fn profile(name: &str, perf: &str) -> Profile {
    Profile {
        name: name.to_string(),
        perf: perf.to_string(),
        curve: vec![(40, 10), (80, 100)],
        kbd: Some(2),
        charge: Some("balanced".to_string()),
    }
}

fn names(s: &Store) -> Vec<&str> {
    s.profiles.iter().map(|p| p.name.as_str()).collect()
}

#[test]
fn built_in_profiles() {
    let b = builtins();
    let rows: Vec<(&str, &str, Option<i32>)> = b
        .iter()
        .map(|p| (p.name.as_str(), p.perf.as_str(), p.kbd))
        .collect();
    assert_eq!(
        rows,
        vec![
            ("Max Energy Save", "power_save", Some(0)),
            ("Quiet", "power_save", None),
            ("Office", "enthusiast", None),
            ("High Performance", "overboost", None),
        ]
    );
    assert_eq!(b[0].curve, fan("Silent"));
    assert_eq!(b[1].curve, fan("Quiet"));
    assert_eq!(b[2].curve, fan("Quiet"));
    assert_eq!(b[3].curve, fan("Balanced"));
    assert!(b.iter().all(|p| p.charge.is_none()));
    assert!(is_builtin("Office"));
    assert!(!is_builtin("office"));
    assert!(!is_builtin("Configured"));
}

#[test]
fn fan_presets() {
    assert_eq!(
        fan("Silent"),
        vec![(0, 0), (60, 0), (61, 20), (70, 30), (85, 65), (100, 100)]
    );
    assert_eq!(
        fan("Quiet"),
        vec![(0, 0), (50, 0), (51, 20), (70, 33), (85, 70), (100, 100)]
    );
    assert_eq!(
        fan("Balanced"),
        vec![(0, 0), (45, 0), (46, 20), (50, 20), (70, 50), (85, 75), (100, 100)]
    );
    assert_eq!(
        fan("Cool"),
        vec![(0, 0), (39, 0), (40, 20), (50, 25), (70, 50), (85, 85), (100, 100)]
    );
    assert_eq!(
        fan("Freezy"),
        vec![(0, 20), (50, 40), (70, 55), (85, 85), (100, 100)]
    );
    assert_eq!(
        fan("anything"),
        vec![(0, 0), (50, 0), (62, 24), (80, 60), (90, 100)]
    );
}

#[test]
fn first_store() {
    for s in [default_store(), load(None)] {
        assert_eq!(s.active, "Quiet");
        assert_eq!(s.default, "Quiet");
        assert_eq!(names(&s), ["Max Energy Save", "Quiet", "Office", "High Performance"]);
        assert_eq!(s.active_profile().unwrap().name, "Quiet");
    }
}

#[test]
fn loading_adds_missing_built_ins() {
    let mut mine = profile("Office", "overboost");
    mine.kbd = None;
    let s = load(Some(Store {
        active: "gone".to_string(),
        default: "Mine".to_string(),
        profiles: vec![profile("Mine", "enthusiast"), mine],
    }));
    assert_eq!(
        names(&s),
        ["Mine", "Office", "Max Energy Save", "Quiet", "High Performance"]
    );
    // A stored profile of a built-in name is kept as it is.
    assert_eq!(s.get("Office").unwrap().perf, "overboost");
    // The active profile is gone, so the default one is active.
    assert_eq!(s.active, "Mine");
    // Loading again changes nothing.
    let before: Vec<String> = s.profiles.iter().map(|p| p.name.clone()).collect();
    let again = load(Some(s));
    assert_eq!(names(&again), before);
    assert_eq!(again.active, "Mine");
}

#[test]
fn saving_and_removing() {
    let mut s = default_store();
    assert!(s.get("Mine").is_none());
    s.put(profile("Mine", "enthusiast"));
    assert_eq!(s.get("Mine").unwrap().curve, vec![(40, 10), (80, 100)]);
    s.put(profile("Quiet", "overboost"));
    assert_eq!(
        names(&s),
        ["Max Energy Save", "Office", "High Performance", "Mine", "Quiet"]
    );
    assert_eq!(s.get("Quiet").unwrap().perf, "overboost");
    s.remove("Mine");
    assert!(s.get("Mine").is_none());
    s.remove("Mine");
    assert_eq!(s.profiles.len(), 4);
    s.put_all(vec![
        profile("A", "power_save"),
        profile("B", "power_save"),
        profile("A", "overboost"),
    ]);
    assert_eq!(names(&s)[4..], ["B", "A"]);
    assert_eq!(s.get("A").unwrap().perf, "overboost");
}

#[test]
fn clone_keeps_everything() {
    let p = profile("Mine", "enthusiast").clone();
    assert_eq!(p.name, "Mine");
    assert_eq!(p.perf, "enthusiast");
    assert_eq!(p.curve, vec![(40, 10), (80, 100)]);
    assert_eq!(p.kbd, Some(2));
    assert_eq!(p.charge.as_deref(), Some("balanced"));
    let mut s = default_store();
    s.put(p);
    let t = s.clone();
    assert_eq!(names(&t), names(&s));
    assert_eq!((t.active, t.default), (s.active, s.default));
    assert_eq!(t.profiles[4].curve, s.profiles[4].curve);
}

fn exported(name: Option<&str>, fan: Option<TccFan>, odm: Option<&str>) -> TccProfile {
    TccProfile {
        name: name.map(str::to_string),
        fan,
        odm_profile: odm.map(|o| TccOdm {
            name: Some(o.to_string()),
        }),
    }
}

fn custom(points: &[(i32, i32)]) -> Option<TccCustomCurve> {
    Some(TccCustomCurve {
        table_cpu: points
            .iter()
            .map(|&(temp, speed)| TccFanEntry { temp, speed })
            .collect(),
    })
}

#[test]
fn importing_an_export() {
    let named = |preset: Option<&str>, curve: Option<TccCustomCurve>| {
        Some(TccFan {
            fan_profile: preset.map(str::to_string),
            custom_fan_curve: curve,
        })
    };
    let got = import_tcc(Ok(vec![
        exported(Some("a"), named(Some("Cool"), custom(&[(1, 2)])), Some("overboost")),
        exported(Some("b"), named(Some("Custom"), custom(&[(20, 5), (90, 99)])), Some("turbo")),
        exported(Some("c"), named(None, custom(&[])), None),
        exported(None, None, Some("overboost")),
        exported(Some("d"), None, Some("power_save")),
        exported(Some("e"), named(Some("Custom"), None), Some("enthusiast")),
    ]))
    .unwrap();
    let rows: Vec<(&str, &str)> = got
        .iter()
        .map(|p| (p.name.as_str(), p.perf.as_str()))
        .collect();
    assert_eq!(
        rows,
        vec![
            ("a", "overboost"),
            ("b", "enthusiast"),
            ("c", "enthusiast"),
            ("d", "power_save"),
            ("e", "enthusiast"),
        ]
    );
    assert_eq!(got[0].curve, fan("Cool"));
    assert_eq!(got[1].curve, vec![(20, 5), (90, 99)]);
    assert_eq!(got[2].curve, fan("Balanced"));
    assert_eq!(got[3].curve, fan("Balanced"));
    assert_eq!(got[4].curve, fan("Balanced"));
    assert!(got.iter().all(|p| p.kbd.is_none() && p.charge.is_none()));
}

#[test]
fn importing_what_is_no_export() {
    let e = import_tcc(Err("expected value at line 1 column 1".to_string())).unwrap_err();
    assert_eq!(e, "expected value at line 1 column 1");
    assert!(import_tcc(Ok(vec![])).unwrap().is_empty());
}
