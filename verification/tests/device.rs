//! The EC handle: requests, guard, errors.

use tuxedo_control::control::value_or;
use tuxedo_control::device::{
    known_model, version_text, EcBackend, EcError, TuxedoIo, FAN_OWNERSHIP_BIT,
};
use tuxedo_control::ioctl::{
    ioc, ior, iow, R_HWCHECK_UW, R_MOD_VERSION, R_UW_FANSPEED, R_UW_FANSPEED2,
    R_UW_FANS_MIN_SPEED, R_UW_FANS_OFF_AVAILABLE, R_UW_FAN_TEMP, R_UW_FAN_TEMP2, R_UW_MODE,
    R_UW_MODEL_ID, R_UW_PROFS_AVAILABLE, W_UW_FANAUTO, W_UW_FANSPEED, W_UW_FANSPEED2, W_UW_MODE,
    W_UW_PERF_PROF,
};
use tuxedo_control::perf::PerfProfile;
use tuxedo_control::scale::{clamp, pct_to_raw, raw_to_pct, FAN_MAX};
use tuxedo_control::sim::{mock, mock_unchecked, models, EcState, KbdBacklight, MockEc};

#[test]
fn request_numbers_are_those_of_the_driver() {
    assert_eq!(R_MOD_VERSION, 0x8008_ec00);
    assert_eq!(R_HWCHECK_UW, 0x8008_ec06);
    assert_eq!(R_UW_MODEL_ID, 0x8008_ef01);
    assert_eq!(R_UW_FANSPEED, 0x8008_ef10);
    assert_eq!(R_UW_FANSPEED2, 0x8008_ef11);
    assert_eq!(R_UW_FAN_TEMP, 0x8008_ef12);
    assert_eq!(R_UW_FAN_TEMP2, 0x8008_ef13);
    assert_eq!(R_UW_MODE, 0x8008_ef14);
    assert_eq!(R_UW_FANS_OFF_AVAILABLE, 0x8008_ef16);
    assert_eq!(R_UW_FANS_MIN_SPEED, 0x8008_ef17);
    assert_eq!(R_UW_PROFS_AVAILABLE, 0x8008_ef21);
    assert_eq!(W_UW_FANSPEED, 0x4008_f010);
    assert_eq!(W_UW_FANSPEED2, 0x4008_f011);
    assert_eq!(W_UW_MODE, 0x4008_f012);
    assert_eq!(W_UW_FANAUTO, 0x0000_f014);
    assert_eq!(W_UW_PERF_PROF, 0x4008_f018);
    assert_eq!(ior(0xef, 0x14), R_UW_MODE);
    assert_eq!(iow(0xf0, 0x12), W_UW_MODE);
    assert_eq!(ioc(0, 0xf0, 0x14, 0), W_UW_FANAUTO);
}

#[test]
fn registry_holds_the_reference_board() {
    let m = known_model(0x1a).unwrap();
    assert_eq!(m.model_id, 0x1a);
    assert_eq!(m.name, "InfinityBook Pro AMD Gen9 (GXxHRXx)");
    assert_eq!(m.fan_max, FAN_MAX);
    assert!(known_model(0).is_none());
    assert!(known_model(0x09).is_none());
    assert!(known_model(-1).is_none());
}

#[test]
fn one_fixture_is_validated() {
    let n = models().iter().filter(|m| m.is_validated()).count();
    assert_eq!(n, 1);
    assert!(models()[0].is_validated());
    assert_eq!(models().len(), 9);
    assert_eq!(models()[7].kbd, KbdBacklight::Absent);
}

#[test]
fn scaling_is_exact_and_clamped() {
    assert_eq!(pct_to_raw(50), 100);
    assert_eq!(pct_to_raw(33), 66);
    assert_eq!(pct_to_raw(-20), 0);
    assert_eq!(pct_to_raw(150), 200);
    assert_eq!(pct_to_raw(i32::MAX), 200);
    assert_eq!(raw_to_pct(100), 50);
    assert_eq!(raw_to_pct(1), 1);
    assert_eq!(raw_to_pct(255), 128);
    assert_eq!(raw_to_pct(-1), 0);
    assert_eq!(raw_to_pct(-3), -1);
    assert_eq!(raw_to_pct(i32::MAX), 1_073_741_824);
    for p in 0..=100 {
        assert_eq!(raw_to_pct(pct_to_raw(p)), p);
    }
    assert_eq!(clamp(5, 0, 3), 3);
    assert_eq!(clamp(-5, 0, 3), 0);
    assert_eq!(clamp(2, 0, 3), 2);
}

#[test]
fn version_ends_at_the_first_zero() {
    let mut buf = [0u8; 32];
    buf[..5].copy_from_slice(b"0.3.9");
    buf[10] = b'x';
    assert_eq!(version_text(&buf), "0.3.9");
    assert_eq!(version_text(b"no end"), "no end");
    assert_eq!(version_text(b"\0rest"), "");
    assert_eq!(version_text(&[]), "");
    assert_eq!(version_text("Größe\0".as_bytes()), "Größe");
    assert_eq!(version_text(&[b'a', 0xff, b'b', 0]), "a\u{fffd}b");
}

/// An EC that answers everything with one error.
struct Broken;

impl EcBackend for Broken {
    fn rd(&self, _req: u64) -> Result<i32, EcError> {
        Err(EcError::Os(5))
    }
    fn wr(&mut self, _req: u64, _v: i32) -> Result<(), EcError> {
        Err(EcError::Os(6))
    }
    fn noarg(&mut self, _req: u64) -> Result<(), EcError> {
        Err(EcError::Os(7))
    }
    fn version(&self) -> Result<String, EcError> {
        Err(EcError::Os(8))
    }
}

#[test]
fn errors_are_passed_on() {
    let mut d = TuxedoIo::from_backend(Broken);
    assert!(!d.write_allowed());
    assert_eq!(d.set_fan_pct(50), Err(EcError::Os(5)));
    assert_eq!(
        d.set_perf(PerfProfile::PowerSave),
        Err(EcError::PermissionDenied)
    );
    assert_eq!(d.restore_auto(), Err(EcError::PermissionDenied));
    assert_eq!(d.is_uniwill(), Err(EcError::Os(5)));
    assert_eq!(d.caps(), Err(EcError::Os(5)));
    assert_eq!(d.cpu_fan_pct(), Err(EcError::Os(5)));
    assert_eq!(d.version().unwrap_err(), EcError::Os(8));
    assert_eq!(value_or(d.cpu_temp(), 0), 0);

    let mut d = TuxedoIo::from_backend_unchecked(Broken);
    assert!(d.write_allowed());
    assert_eq!(d.wr(W_UW_MODE, 0), Err(EcError::Os(6)));
    assert_eq!(d.restore_auto(), Err(EcError::Os(7)));
    assert_eq!(d.ensure_manual(), Err(EcError::Os(5)));
}

#[test]
fn clearing_ownership_says_whether_it_was_set() {
    let mut d = mock_unchecked(models()[0]);
    assert_eq!(d.ensure_manual(), Ok(false));
    d.registers().reg_0751 = 0x40 | 0xa0;
    assert_eq!(d.ensure_manual(), Ok(true));
    assert_eq!(d.backend().st.reg_0751, 0xa0);
    let before = d.backend().st;
    assert_eq!(d.ensure_manual(), Ok(false));
    assert_eq!(d.backend().st, before);
}

#[test]
fn duty_is_read_back() {
    let mut d = mock(models()[0]);
    for p in [0, 1, 33, 50, 99, 100] {
        d.set_fan_pct(p).unwrap();
        assert_eq!(d.cpu_fan_pct(), Ok(p));
        assert_eq!(d.gpu_fan_pct(), Ok(p));
    }
}

#[test]
fn profile_writes_keep_ownership() {
    let mut d = mock(models()[0]);
    d.registers().reg_0751 = FAN_OWNERSHIP_BIT;
    d.set_perf(PerfProfile::Overboost).unwrap();
    assert_eq!(d.backend().st.reg_0751, 0x50);
    d.set_perf(PerfProfile::PowerSave).unwrap();
    assert_eq!(d.backend().st.reg_0751, 0xe0);
    d.set_perf(PerfProfile::Enthusiast).unwrap();
    assert_eq!(d.backend().st.reg_0751, 0x40);
}

#[test]
fn refused_profile_is_invalid_input() {
    let mut d = mock_unchecked(models()[1]);
    assert_eq!(
        d.set_perf(PerfProfile::Overboost),
        Err(EcError::InvalidInput)
    );
    assert_eq!(d.backend().st.last_perf, 0);
}

#[test]
fn simulated_ec_answers() {
    let mut m = MockEc::new(models()[2]);
    assert_eq!(m.rd(R_UW_FAN_TEMP), Ok(45));
    assert_eq!(m.rd(0xdead), Ok(0));
    assert_eq!(m.wr(0xdead, 3), Ok(()));
    assert_eq!(m.wr(W_UW_FANSPEED, 300), Ok(()));
    assert_eq!(m.wr(W_UW_FANSPEED2, -4), Ok(()));
    assert_eq!(m.st.fan1_raw, 0xff);
    assert_eq!(m.st.fan2_raw, 0);
    assert_eq!(m.noarg(0xdead), Ok(()));
    assert!(!m.st.auto);
    assert_eq!(m.noarg(W_UW_FANAUTO), Ok(()));
    assert!(m.st.auto);
    assert_eq!(m.version().unwrap(), "0.3.9-sim");
    let fresh = EcState::default();
    assert_eq!(fresh.cpu_temp, 45);
    assert_eq!(fresh.reg_0751, 0);
}

#[test]
fn profile_names() {
    for (name, p) in [
        ("power_save", PerfProfile::PowerSave),
        ("PowerSave", PerfProfile::PowerSave),
        ("power-save", PerfProfile::PowerSave),
        ("enthusiast", PerfProfile::Enthusiast),
        ("Balanced", PerfProfile::Enthusiast),
        ("OVERBOOST", PerfProfile::Overboost),
        ("performance", PerfProfile::Overboost),
    ] {
        assert_eq!(PerfProfile::from_name(name), Some(p));
        assert_eq!(PerfProfile::from_name(p.as_id()), Some(p));
    }
    assert_eq!(PerfProfile::from_name(""), None);
    assert_eq!(PerfProfile::from_name("power save"), None);
    assert_eq!(PerfProfile::PowerSave.code(), 1);
    assert_eq!(PerfProfile::Enthusiast.code(), 2);
    assert_eq!(PerfProfile::Overboost.code(), 3);
}
