//! Keyboard backlight, charging profile, and what the daemon notes and reports.

use tuxedo_control::control::{tick, ControlState, Tuning};
use tuxedo_control::profiles::builtins;
use tuxedo_control::shared::{apply_profile, Shared};
use tuxedo_control::sim::{mock, models, KbdBacklight};
use tuxedo_control::startup::{probe, start_shared};
use tuxedo_control::sysfs::{
    attr_path, attr_text, chg_dir, chg_valid, has_part, kbd_find, kbd_read, kbd_write, leds_dir,
};

#[test]
fn kbd_write_then_read_roundtrip() {
    assert_eq!(kbd_read(Some(&kbd_write(3))), 3);
}

#[test]
fn kbd_write_clamps_negative_to_zero() {
    assert_eq!(kbd_read(Some(&kbd_write(-5))), 0);
    assert_eq!(kbd_write(i32::MIN), "0");
}

#[test]
fn kbd_read_missing_attr_is_minus_one() {
    assert_eq!(kbd_read(None), -1);
    assert_eq!(kbd_read(Some("")), -1);
    assert_eq!(kbd_read(Some("bright")), -1);
    assert_eq!(kbd_read(Some("255\n")), 255);
    assert_eq!(kbd_read(Some("  -7 ")), -7);
}

#[test]
fn sysfs_of_every_board() {
    for m in models() {
        // The led directory holds a backlight only where the board has one.
        let mut leds = vec!["input3::capslock".to_string()];
        if m.kbd_max_brightness > 0 {
            leds.push(
                match m.kbd {
                    KbdBacklight::White => "white:kbd_backlight",
                    _ => "rgb:kbd_backlight",
                }
                .to_string(),
            );
        }
        match kbd_find(&leds) {
            Some(i) => {
                assert_eq!(i, 1);
                assert!(m.kbd_max_brightness > 0, "{}: found a backlight", m.name);
                let text = format!("{}\n", m.kbd_max_brightness);
                assert_eq!(kbd_read(Some(&text)), m.kbd_max_brightness);
                assert_eq!(
                    kbd_read(Some(&kbd_write(m.kbd_max_brightness))),
                    m.kbd_max_brightness
                );
                assert_eq!(kbd_read(Some(&kbd_write(-3))), 0);
            }
            None => assert_eq!(m.kbd_max_brightness, 0, "{}: expected no backlight", m.name),
        }
        assert_eq!(m.kbd == KbdBacklight::Absent, m.kbd_max_brightness == 0);

        // The charging files are there only where the board has charging profiles.
        let charging = m.charging.then_some((
            attr_text(Some("high_capacity balanced stationary\n")),
            attr_text(Some("balanced")),
        ));
        let s = start_shared(&probe(&mock(m)), None, charging);
        assert_eq!(!s.charges.is_empty(), m.charging, "{}: charging", m.name);
        assert_eq!(s.charge == "balanced", m.charging, "{}: current", m.name);
        if m.charging {
            assert!(s.charges.contains("balanced"), "{}: avail", m.name);
            assert!(!chg_valid("garbage"), "{}: enum validation", m.name);
            for v in ["stationary", "high_capacity"] {
                assert!(chg_valid(v), "{}: enum validation", m.name);
                assert_eq!(attr_text(Some(v)), v, "{}: round-trip", m.name);
            }
        }
    }
}

#[test]
fn led_names() {
    assert!(has_part("rgb:kbd_backlight", "kbd_backlight"));
    assert!(has_part("kbd_backlight_1", "kbd_backlight"));
    assert!(!has_part("kbd_backligh", "kbd_backlight"));
    assert!(!has_part("", "a"));
    assert!(has_part("", ""));
    assert!(has_part("aab", "ab"));
    let none: Vec<String> = vec![];
    assert_eq!(kbd_find(&none), None);
    let two = vec!["a::kbd_backlight".to_string(), "b::kbd_backlight".to_string()];
    assert_eq!(kbd_find(&two), Some(0));
}

#[test]
fn charging_profiles() {
    for v in ["high_capacity", "balanced", "stationary"] {
        assert!(chg_valid(v));
        assert_eq!(attr_text(Some(v)), v);
        assert_eq!(attr_text(Some(&format!("{v}\n"))), v);
    }
    assert!(!chg_valid("garbage"));
    assert!(!chg_valid(""));
    assert!(!chg_valid("Balanced"));
    assert_eq!(attr_text(None), "");
    assert_eq!(
        attr_text(Some("high_capacity balanced stationary\n")),
        "high_capacity balanced stationary"
    );
}

#[test]
fn directories() {
    assert_eq!(leds_dir(None), "/sys/class/leds");
    assert_eq!(leds_dir(Some("/tmp/leds".to_string())), "/tmp/leds");
    assert_eq!(
        chg_dir(None),
        "/sys/devices/platform/tuxedo_keyboard/charging_profile"
    );
    assert_eq!(chg_dir(Some("/tmp/c".to_string())), "/tmp/c");
    assert_eq!(attr_path("/tmp/c", "charging_profile"), "/tmp/c/charging_profile");
}

#[test]
fn status_is_one_json_object() {
    let mut s = Shared::default();
    assert_eq!(
        s.status(),
        "{\"cpu_temp\":0,\"gpu_temp\":0,\"cpu_fan\":0,\"gpu_fan\":0,\"mode\":0,\"curve_pct\":0,\
         \"manual\":null,\"profile\":\"\",\"kbd\":0,\"kbd_max\":0,\"charge\":\"\",\
         \"charges\":\"\",\"model_id\":0,\"read_only\":false}"
    );
    s.cpu_temp = 61;
    s.gpu_temp = -2;
    s.cpu_fan = 30;
    s.gpu_fan = 31;
    s.mode = 160;
    s.curve_pct = 24;
    s.manual = Some(40);
    s.profile = "power_save".to_string();
    s.kbd_cur = -1;
    s.kbd_max = 4;
    s.charge = "balanced".to_string();
    s.charges = "high_capacity balanced".to_string();
    s.model_id = 26;
    s.read_only = true;
    let text = s.status();
    assert_eq!(
        text,
        "{\"cpu_temp\":61,\"gpu_temp\":-2,\"cpu_fan\":30,\"gpu_fan\":31,\"mode\":160,\
         \"curve_pct\":24,\"manual\":40,\"profile\":\"power_save\",\"kbd\":-1,\"kbd_max\":4,\
         \"charge\":\"balanced\",\"charges\":\"high_capacity balanced\",\"model_id\":26,\
         \"read_only\":true}"
    );
    let v: serde_json::Value = serde_json::from_str(&text).unwrap();
    assert_eq!(v["manual"].as_i64(), Some(40));
    assert_eq!(v["read_only"].as_bool(), Some(true));
    assert_eq!(v["charges"].as_str(), Some("high_capacity balanced"));
}

#[test]
fn applying_a_profile() {
    let mut p = builtins()[0].clone();
    p.charge = Some("stationary".to_string());
    let mut dev = mock(models()[0]);
    let mut s = Shared::default();
    s.kbd_dir = Some("/led".to_string());
    s.kbd_cur = 3;
    let w = apply_profile(&mut dev, &mut s, &p);
    assert_eq!(dev.backend().st.last_perf, 1);
    assert_eq!(s.profile, "power_save");
    assert_eq!(s.kbd_cur, 0);
    let kbd = w.kbd.unwrap();
    assert_eq!(kbd.path, "/led/brightness");
    assert_eq!(kbd.text, "0");
    assert_eq!(w.charge.as_deref(), Some("stationary"));
    s.charge_written(w.charge);
    assert_eq!(s.charge, "stationary");
    s.charge_written(None);
    assert_eq!(s.charge, "stationary");
}

#[test]
fn applying_what_is_not_there() {
    let mut p = builtins()[0].clone();
    p.perf = "turbo".to_string();
    p.charge = Some("half".to_string());
    let mut dev = mock(models()[0]);
    let mut s = Shared::default();
    let w = apply_profile(&mut dev, &mut s, &p);
    assert_eq!(dev.backend().st.last_perf, 0);
    assert_eq!(s.profile, "");
    assert_eq!(s.kbd_cur, 0);
    assert!(w.kbd.is_none());
    assert!(w.charge.is_none());
}

#[test]
fn applying_on_a_read_only_board() {
    let p = builtins()[0].clone();
    let mut dev = mock(models()[3]);
    let mut s = Shared::default();
    s.read_only = true;
    s.kbd_dir = Some("/led".to_string());
    let w = apply_profile(&mut dev, &mut s, &p);
    assert_eq!(dev.backend().st.last_perf, 0);
    assert_eq!(s.profile, "");
    assert!(w.kbd.is_some());
}

#[test]
fn a_tick_is_noted() {
    let mut dev = mock(models()[0]);
    dev.registers().cpu_temp = 60;
    dev.registers().gpu_temp = 50;
    let mut st = ControlState::new();
    let t = tick(&mut dev, &mut st, &[(0, 0), (100, 50)], 3, Tuning::steady(), Some(40));
    let mut s = Shared::default();
    s.manual = Some(40);
    s.model_id = 0x1a;
    s.record(&t, 2, "balanced".to_string());
    assert_eq!(
        s.status(),
        "{\"cpu_temp\":60,\"gpu_temp\":50,\"cpu_fan\":40,\"gpu_fan\":40,\"mode\":0,\
         \"curve_pct\":30,\"manual\":40,\"profile\":\"\",\"kbd\":2,\"kbd_max\":0,\
         \"charge\":\"balanced\",\"charges\":\"\",\"model_id\":26,\"read_only\":false}"
    );
}
