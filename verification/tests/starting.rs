//! Configuration and start of the daemon.

use tuxedo_control::config::{
    config_path, d_curve, d_hyst, d_poll, load_config, Config, ConfigFile,
};
use tuxedo_control::device::{EcBackend, EcError, TuxedoIo};
use tuxedo_control::profiles::{default_store, Store};
use tuxedo_control::sim::{mock, models};
use tuxedo_control::startup::{probe, start_shared, start_store, Probe};

#[test]
fn configuration_defaults() {
    let c = Config::default();
    assert_eq!(c.poll_seconds, 2);
    assert_eq!(c.hysteresis_c, 3);
    assert!(c.profile.is_none());
    assert!(c.perf_profile.is_none());
    assert!(c.kbd_brightness.is_none());
    assert!(c.charge_profile.is_none());
    assert_eq!(
        c.curve,
        vec![
            (25, 0),
            (50, 0),
            (62, 24),
            (68, 36),
            (72, 44),
            (80, 60),
            (86, 72),
            (90, 100)
        ]
    );
    assert_eq!(d_poll(), 2);
    assert_eq!(d_hyst(), 3);
    assert_eq!(d_curve(), c.curve);
}

#[test]
fn configuration_file() {
    let (c, note) = load_config("/etc/c", ConfigFile::Missing);
    assert_eq!(c.hysteresis_c, 3);
    assert_eq!(
        note.as_deref(),
        Some("no config at /etc/c; built-in quiet defaults")
    );
    let (c, note) = load_config("/etc/c", ConfigFile::Malformed("EOF".to_string()));
    assert_eq!(c.poll_seconds, 2);
    assert_eq!(note.as_deref(), Some("config parse /etc/c: EOF; defaults"));
    let mut mine = Config::default();
    mine.poll_seconds = 9;
    let (c, note) = load_config("/etc/c", ConfigFile::Parsed(mine));
    assert_eq!(c.poll_seconds, 9);
    assert!(note.is_none());
    assert_eq!(config_path(None), "/etc/tuxedo-control/config.json");
    assert_eq!(config_path(Some("x".to_string())), "x");
}

#[test]
fn probing_boards() {
    for m in models() {
        let p = probe(&mock(m));
        assert_eq!(
            p,
            Probe {
                uniwill: m.is_uniwill,
                model_id: m.model_id,
                read_only: !m.is_validated(),
            }
        );
    }
}

struct Silent;

impl EcBackend for Silent {
    fn rd(&self, _req: u64) -> Result<i32, EcError> {
        Err(EcError::Os(19))
    }
    fn wr(&mut self, _req: u64, _v: i32) -> Result<(), EcError> {
        Ok(())
    }
    fn noarg(&mut self, _req: u64) -> Result<(), EcError> {
        Ok(())
    }
    fn version(&self) -> Result<String, EcError> {
        Ok(String::new())
    }
}

#[test]
fn probing_what_does_not_answer() {
    let p = probe(&TuxedoIo::from_backend(Silent));
    assert_eq!(
        p,
        Probe {
            uniwill: false,
            model_id: 0,
            read_only: true,
        }
    );
}

#[test]
fn first_state() {
    let p = probe(&mock(models()[0]));
    let s = start_shared(
        &p,
        Some(("/led".to_string(), 4)),
        Some(("a b".to_string(), "b".to_string())),
    );
    assert_eq!(s.model_id, 0x1a);
    assert!(!s.read_only);
    assert_eq!(s.kbd_dir.as_deref(), Some("/led"));
    assert_eq!(s.kbd_max, 4);
    assert_eq!(s.charges, "a b");
    assert_eq!(s.charge, "b");
    let s = start_shared(&probe(&mock(models()[8])), None, None);
    assert!(s.read_only);
    assert!(s.kbd_dir.is_none());
    assert_eq!(s.kbd_max, 0);
    assert_eq!(s.charges, "");
}

#[test]
fn first_run_folds_the_configuration() {
    let mut c = Config::default();
    c.perf_profile = Some("power_save".to_string());
    c.kbd_brightness = Some(1);
    c.charge_profile = Some("stationary".to_string());
    let (s, save) = start_store(None, true, &c);
    assert!(save);
    assert_eq!(s.active, "Configured");
    assert_eq!(s.default, "Configured");
    assert_eq!(s.profiles.len(), 5);
    let p = s.active_profile().unwrap();
    assert_eq!(p.perf, "power_save");
    assert_eq!(p.curve, c.curve);
    assert_eq!(p.kbd, Some(1));
    assert_eq!(p.charge.as_deref(), Some("stationary"));
    // Without a performance profile there is nothing to fold.
    let (s, save) = start_store(None, true, &Config::default());
    assert!(!save);
    assert_eq!(s.active, "Quiet");
    // A store that was there is left alone.
    let (s, save) = start_store(Some(default_store()), false, &c);
    assert!(!save);
    assert_eq!(s.profiles.len(), 4);
}

#[test]
fn configured_profile_is_activated() {
    let mut c = Config::default();
    c.profile = Some("Office".to_string());
    let (s, save) = start_store(Some(default_store()), false, &c);
    assert!(save);
    assert_eq!(s.active, "Office");
    assert_eq!(s.default, "Quiet");
    // It is active already.
    let (s, save) = start_store(Some(s), false, &c);
    assert!(!save);
    assert_eq!(s.active, "Office");
    // There is none of that name.
    c.profile = Some("None of these".to_string());
    let (s, save) = start_store(Some(s), false, &c);
    assert!(!save);
    assert_eq!(s.active, "Office");
    // A stored active profile that is gone is replaced by the default one, and not saved.
    let gone = Store {
        active: "gone".to_string(),
        default: "Office".to_string(),
        profiles: vec![],
    };
    let (s, save) = start_store(Some(gone), false, &c);
    assert!(!save);
    assert_eq!(s.active, "Office");
    assert_eq!(s.profiles.len(), 4);
}
