//! The control loop: smoothing, hysteresis, deadband, safety floor.

use tuxedo_control::config::Config;
use tuxedo_control::control::{tick, ControlState, Decision, Tuning};
use tuxedo_control::curve::interp;
use tuxedo_control::device::FAN_OWNERSHIP_BIT;
use tuxedo_control::profiles::{default_store, fan};
use tuxedo_control::scale::pct_to_raw;
use tuxedo_control::sim::{mock, models};
use tuxedo_control::startup::{active_curve, run_tick, stop};

const CURVE: [(i32, i32); 3] = [(40, 0), (60, 20), (80, 60)];

#[test]
fn interp_is_total() {
    assert_eq!(interp(&[(i32::MIN, i32::MIN), (i32::MAX, i32::MAX)], 0), 0);
    assert_eq!(interp(&[(i32::MIN, 0), (i32::MAX, i32::MAX)], 0), 1_073_741_823);
    // The fraction is dropped towards zero, also on a falling segment.
    assert_eq!(interp(&[(0, 10), (3, 0)], 1), 7);
    assert_eq!(interp(&[(0, 0), (3, 10)], 2), 6);
    // Points out of order: the first segment that spans the temperature counts.
    assert_eq!(interp(&[(10, 1), (50, 5), (30, 3), (60, 6)], 40), 4);
    assert_eq!(interp(&[(10, 1), (50, 5), (30, 3), (60, 6)], 55), 5);
}

#[test]
fn direct_loop_follows_the_curve_with_hysteresis() {
    let mut st = ControlState::new();
    assert_eq!(st.commanded(), -1);
    let t = Tuning::direct();
    let step = |st: &mut ControlState, temp| st.step(&CURVE, 3, t, temp, None);
    assert_eq!(step(&mut st, 60), Decision { wanted: 20, target: 20 });
    // Up at once.
    assert_eq!(step(&mut st, 70), Decision { wanted: 40, target: 40 });
    // Down late: the curve is read three degrees hotter.
    assert_eq!(step(&mut st, 69), Decision { wanted: 40, target: 40 });
    assert_eq!(step(&mut st, 67), Decision { wanted: 40, target: 40 });
    assert_eq!(step(&mut st, 66), Decision { wanted: 38, target: 38 });
    assert_eq!(step(&mut st, 30), Decision { wanted: 0, target: 0 });
    assert_eq!(st.commanded(), 0);
}

#[test]
fn floor_goes_by_the_raw_temperature() {
    let mut st = ControlState::new();
    let t = Tuning::steady();
    let flat = [(0, 0), (100, 0)];
    assert_eq!(st.step(&flat, 3, t, 40, None), Decision { wanted: 0, target: 0 });
    // Smoothed, 95 degrees are 57, and the curve asks for nothing; the floor asks for 80.
    assert_eq!(st.step(&flat, 3, t, 95, None), Decision { wanted: 0, target: 80 });
    assert_eq!(st.smooth(), Some(56_500));
    // An override is raised as well.
    assert_eq!(st.step(&flat, 3, t, 80, Some(10)).target, 45);
    assert_eq!(st.step(&flat, 3, t, 80, Some(70)).target, 70);
    assert_eq!(st.step(&flat, 3, t, 74, Some(10)).target, 10);
}

#[test]
fn smoothing_follows_the_trend() {
    let mut st = ControlState::new();
    assert_eq!(st.smooth(), None);
    let t = Tuning {
        weight: 30,
        deadband: 0,
    };
    st.step(&CURVE, 0, t, 50, None);
    assert_eq!(st.smooth(), Some(50_000));
    st.step(&CURVE, 0, t, 60, None);
    assert_eq!(st.smooth(), Some(53_000));
    st.step(&CURVE, 0, t, 60, None);
    assert_eq!(st.smooth(), Some(55_100));
    st.step(&CURVE, 0, t, -40, None);
    assert_eq!(st.smooth(), Some(26_570));
    // A weight out of range counts as the nearest in range.
    let heavy = Tuning {
        weight: 1000,
        deadband: 0,
    };
    st.step(&CURVE, 0, heavy, 7, None);
    assert_eq!(st.smooth(), Some(7_000));
    let light = Tuning {
        weight: 0,
        deadband: 0,
    };
    st.step(&CURVE, 0, light, 107, None);
    assert_eq!(st.smooth(), Some(8_000));
    // Averages are rounded down, also below zero.
    st.step(&CURVE, 0, heavy, 0, None);
    st.step(&CURVE, 0, Tuning { weight: 33, deadband: 0 }, -1, None);
    assert_eq!(st.smooth(), Some(-330));
    st.step(&CURVE, 0, Tuning { weight: 33, deadband: 0 }, 0, None);
    assert_eq!(st.smooth(), Some(-222));
}

#[test]
fn deadband_holds_small_changes() {
    let t = Tuning {
        weight: 100,
        deadband: 4,
    };
    let mut st = ControlState::new();
    assert_eq!(st.step(&CURVE, 0, t, 60, None).target, 20);
    assert_eq!(st.step(&CURVE, 0, t, 62, None), Decision { wanted: 24, target: 20 });
    assert_eq!(st.step(&CURVE, 0, t, 63, None), Decision { wanted: 26, target: 26 });
    assert_eq!(st.step(&CURVE, 0, t, 61, None), Decision { wanted: 22, target: 26 });
    assert_eq!(st.step(&CURVE, 0, t, 60, None), Decision { wanted: 20, target: 20 });
}

#[test]
fn noise_does_not_move_the_fan() {
    let mut st = ControlState::new();
    let t = Tuning::steady();
    let first = st.step(&CURVE, 3, t, 62, None).target;
    for i in 0..50 {
        let temp = if i % 2 == 0 { 61 } else { 63 };
        assert_eq!(st.step(&CURVE, 3, t, temp, None).target, first);
    }
}

#[test]
fn fan_settles_at_a_steady_temperature() {
    for start in [20, 55, 70, 95] {
        let mut st = ControlState::new();
        st.step(&CURVE, 3, Tuning::steady(), start, None);
        // The smoothed temperature closes in on the reading...
        for _ in 0..60 {
            st.step(&CURVE, 3, Tuning::steady(), 66, None);
        }
        let s = st.smooth().unwrap();
        assert!((65_900..=66_000).contains(&s), "{s}");
        // ... from below it stalls within a tenth of a degree, and the duty stays.
        let held = st.commanded();
        for _ in 0..20 {
            assert_eq!(st.step(&CURVE, 3, Tuning::steady(), 66, None).target, held);
        }
    }
}

#[test]
fn loop_takes_extreme_readings() {
    let mut st = ControlState::new();
    let t = Tuning::direct();
    for temp in [i32::MAX, i32::MIN, i32::MAX] {
        let d = st.step(&CURVE, i32::MAX, t, temp, None);
        assert!(d.target >= 0);
    }
    assert_eq!(st.step(&[(i32::MAX, 7), (i32::MAX, 9)], 1, t, i32::MAX, None).wanted, 9);
}

#[test]
fn tick_drives_a_validated_board() {
    let mut dev = mock(models()[0]);
    dev.registers().cpu_temp = 70;
    dev.registers().gpu_temp = 85;
    dev.registers().reg_0751 = FAN_OWNERSHIP_BIT | 0xa0;
    let mut st = ControlState::new();
    let t = tick(&mut dev, &mut st, &[(0, 0), (100, 10)], 3, Tuning::direct(), None);
    assert_eq!((t.cpu_temp, t.gpu_temp, t.temp), (70, 85, 85));
    assert_eq!(t.decision, Decision { wanted: 8, target: 60 });
    assert!(t.changed);
    assert_eq!((t.cpu_fan, t.gpu_fan), (60, 60));
    assert_eq!(t.mode, 0xa0);
    assert_eq!(dev.backend().st.fan1_raw, pct_to_raw(60));
    assert_eq!(dev.backend().st.fan2_raw, pct_to_raw(60));
    // The EC grabs the fans; the next tick takes them back, at the same duty.
    dev.registers().reg_0751 |= FAN_OWNERSHIP_BIT;
    dev.registers().fan1_raw = 200;
    let t = tick(&mut dev, &mut st, &[(0, 0), (100, 10)], 3, Tuning::direct(), None);
    assert!(!t.changed);
    assert_eq!(dev.backend().st.fan1_raw, pct_to_raw(60));
    assert_eq!(dev.backend().st.reg_0751, 0xa0);
}

#[test]
fn tick_only_watches_other_boards() {
    for fix in models().into_iter().filter(|m| !m.is_validated()) {
        let mut dev = mock(fix);
        dev.registers().cpu_temp = 95;
        dev.registers().reg_0751 = FAN_OWNERSHIP_BIT;
        let mut st = ControlState::new();
        let t = tick(&mut dev, &mut st, &CURVE, 3, Tuning::steady(), Some(100));
        assert_eq!(t.decision.target, 100);
        assert_eq!(t.decision.wanted, 60);
        assert!(!t.changed);
        assert_eq!(t.cpu_fan, 0);
        assert_eq!(dev.backend().st.fan1_raw, 0);
        assert_eq!(dev.backend().st.reg_0751, FAN_OWNERSHIP_BIT);
        stop(&mut dev, true);
        assert!(!dev.backend().st.auto);
    }
}

#[test]
fn daemon_tick_uses_the_active_profile() {
    let cfg = Config::default();
    let mut store = default_store();
    store.active = "Office".to_string();
    assert_eq!(active_curve(&store, &cfg), fan("Quiet"));
    let mut dev = mock(models()[0]);
    dev.registers().cpu_temp = 70;
    let mut st = ControlState::new();
    let t = run_tick(&mut dev, &mut st, None, &store, &cfg, Tuning::direct());
    assert_eq!(t.decision, Decision { wanted: 33, target: 33 });
    let t = run_tick(&mut dev, &mut st, Some(50), &store, &cfg, Tuning::direct());
    assert_eq!(t.decision, Decision { wanted: 33, target: 50 });
    // Without an active profile the configured curve is followed.
    store.active = "gone".to_string();
    assert_eq!(active_curve(&store, &cfg), cfg.curve);
    let mut st = ControlState::new();
    let t = run_tick(&mut dev, &mut st, None, &store, &cfg, Tuning::direct());
    assert_eq!(t.decision, Decision { wanted: 40, target: 40 });
    stop(&mut dev, false);
    assert!(dev.backend().st.auto);
}
