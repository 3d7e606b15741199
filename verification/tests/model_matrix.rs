//! Every fixture board against the simulated EC.

use tuxedo_control::device::{EcError, FAN_OWNERSHIP_BIT};
use tuxedo_control::ioctl::W_UW_FANSPEED;
use tuxedo_control::perf::PerfProfile;
use tuxedo_control::scale::{pct_to_raw, raw_to_pct};
use tuxedo_control::sim::{mock, mock_unchecked, models};

#[test]
fn model_matrix() {
    assert!(!models().is_empty(), "fixture table must not be empty");

    for fix in models() {
        let mut dev = mock(fix);
        let label = fix.name;

        // 1. uniwill probe
        assert_eq!(
            dev.is_uniwill().unwrap(),
            fix.is_uniwill,
            "is_uniwill mismatch on {label}"
        );

        // 2. model id
        assert_eq!(
            dev.model_id().unwrap(),
            fix.model_id,
            "model_id mismatch on {label}"
        );

        // 3. The guard: writes pass only where the model is in the registry.
        assert_eq!(
            dev.write_allowed(),
            fix.is_validated(),
            "write-guard mismatch on {label}"
        );

        // 4. capability probes
        assert_eq!(
            dev.fans_off_available().unwrap(),
            fix.fans_off,
            "fans_off mismatch on {label}"
        );
        assert_eq!(
            dev.fans_min_speed().unwrap(),
            fix.fans_min_speed,
            "fans_min_speed mismatch on {label}"
        );
        assert_eq!(
            dev.profs_available().unwrap(),
            fix.profs_available,
            "profs_available mismatch on {label}"
        );
        let caps = dev.caps().unwrap();
        assert_eq!(caps.model_id, fix.model_id, "caps.model_id on {label}");
        assert_eq!(caps.fans_off, fix.fans_off, "caps.fans_off on {label}");
        assert_eq!(
            caps.fans_min_speed, fix.fans_min_speed,
            "caps.fans_min_speed on {label}"
        );
        assert_eq!(
            caps.profs_available, fix.profs_available,
            "caps.profs_available on {label}"
        );

        if fix.is_validated() {
            // 5. Writes are allowed: the EC must change.
            dev.registers().reg_0751 |= FAN_OWNERSHIP_BIT;
            dev.set_fan_pct(50).unwrap();
            {
                let st = dev.backend().st;
                assert_eq!(st.fan1_raw, pct_to_raw(50), "fan1 not written on {label}");
                assert_eq!(st.fan2_raw, pct_to_raw(50), "fan2 not written on {label}");
                assert_eq!(
                    st.reg_0751 & FAN_OWNERSHIP_BIT,
                    0,
                    "ownership bit not cleared on {label}"
                );
            }

            // Performance profiles drive the profile bits of 0x0751.
            dev.set_perf(PerfProfile::PowerSave).unwrap();
            {
                let st = dev.backend().st;
                assert_eq!(st.reg_0751 & 0xa0, 0xa0, "powersave bits on {label}");
                assert_eq!(st.last_perf, 1, "powersave last_perf on {label}");
            }
            dev.set_perf(PerfProfile::Overboost).unwrap();
            {
                let st = dev.backend().st;
                assert_eq!(st.reg_0751 & 0x10, 0x10, "overboost bit on {label}");
                assert_eq!(st.last_perf, 3, "overboost last_perf on {label}");
            }
            dev.set_perf(PerfProfile::Enthusiast).unwrap();
            {
                let st = dev.backend().st;
                assert_eq!(
                    st.reg_0751 & (0xa0 | 0x10),
                    0,
                    "enthusiast clears profile bits on {label}"
                );
                assert_eq!(st.last_perf, 2, "enthusiast last_perf on {label}");
            }

            dev.restore_auto().unwrap();
            assert!(dev.backend().st.auto, "auto not restored on {label}");
        } else {
            // 6. Read-only: every write must be refused and leave the EC untouched.
            let e = dev.set_fan_pct(50).unwrap_err();
            assert_eq!(
                e,
                EcError::PermissionDenied,
                "set_fan_pct should be PermissionDenied on {label}"
            );
            assert!(
                dev.set_perf(PerfProfile::Enthusiast).is_err(),
                "set_perf should be refused on {label}"
            );
            assert!(
                dev.restore_auto().is_err(),
                "restore_auto should be refused on {label}"
            );

            let st = dev.backend().st;
            assert_eq!(st.fan1_raw, 0, "fan1 leaked a write on {label}");
            assert_eq!(st.fan2_raw, 0, "fan2 leaked a write on {label}");
            assert!(!st.auto, "auto leaked a write on {label}");
            assert_eq!(st.last_perf, 0, "perf leaked a write on {label}");
        }
    }
}

/// With the ownership bit set, a raw fan write is dropped by the EC. `set_fan_pct` clears it
/// first.
#[test]
fn bug_fix_requires_clearing_ownership() {
    let fix = models()
        .iter()
        .find(|f| f.is_validated())
        .copied()
        .expect("need a validated fixture");
    let mut dev = mock_unchecked(fix);

    // Ownership grabbed by the EC: a raw fan write is ignored.
    dev.registers().reg_0751 |= FAN_OWNERSHIP_BIT;
    dev.wr(W_UW_FANSPEED, pct_to_raw(60)).unwrap();
    assert_eq!(
        dev.backend().st.fan1_raw,
        0,
        "raw fan write must be dropped while EC owns the fan"
    );

    // set_fan_pct clears ownership first, so now the write lands.
    dev.set_fan_pct(60).unwrap();
    assert_eq!(
        dev.backend().st.fan1_raw,
        pct_to_raw(60),
        "set_fan_pct must land after clearing ownership"
    );
}

/// Scaling is monotone and round-trips within 1.
#[test]
fn scaling_roundtrip() {
    assert_eq!(pct_to_raw(0), 0);
    assert_eq!(pct_to_raw(100), 0xc8);
    for p in [0, 25, 50, 75, 100] {
        let rt: i32 = raw_to_pct(pct_to_raw(p));
        assert!((rt - p).abs() <= 1, "roundtrip {p} -> {rt} drifted > 1");
    }
}

/// The EC rejects a profile that a board does not expose: a 2-profile board refuses Overboost,
/// a 0-profile board refuses everything.
#[test]
fn profile_enforcement() {
    let two = models()
        .iter()
        .find(|f| f.profs_available == 2)
        .copied()
        .expect("need a 2-profile fixture");
    let mut dev = mock_unchecked(two);
    dev.set_perf(PerfProfile::PowerSave).unwrap();
    dev.set_perf(PerfProfile::Enthusiast).unwrap();
    assert!(
        dev.set_perf(PerfProfile::Overboost).is_err(),
        "2-profile board must reject Overboost"
    );

    let zero = models()
        .iter()
        .find(|f| f.profs_available == 0)
        .copied()
        .expect("need a 0-profile fixture");
    let mut dev = mock_unchecked(zero);
    for p in [
        PerfProfile::PowerSave,
        PerfProfile::Enthusiast,
        PerfProfile::Overboost,
    ] {
        assert!(
            dev.set_perf(p).is_err(),
            "0-profile board must reject every profile"
        );
    }
}
