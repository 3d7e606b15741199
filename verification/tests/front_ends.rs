//! What the window, the terminal dashboard and the prober show and do.

use tuxedo_control::device::{EcBackend, EcError, TuxedoIo, FAN_OWNERSHIP_BIT};
use tuxedo_control::editor::{sorted_clamped, Editor};
use tuxedo_control::gui::{
    active_meta, charge_entry, charge_index, deletable, import_outcome, names_changed, new_name,
    new_profile, outcome, perf_entry, perf_index, profile_names, refresh, selection, sensor_text,
    slider_command, switch_command, ProfileList, ProfileMeta, Status, Widgets,
};
use tuxedo_control::perf::PerfProfile;
use tuxedo_control::prober::{
    cmd_info, cmd_watch, parse_args, perform, read_info, read_sensors, usage, Command, Job,
};
use tuxedo_control::sim::{mock, mock_unchecked, models};
use tuxedo_control::tui::{draw, nudge, press, read_key, read_panel, Act, Key};

fn status() -> Status {
    Status {
        cpu_temp: 61,
        gpu_temp: 50,
        cpu_fan: 30,
        gpu_fan: 31,
        manual: None,
        profile: "enthusiast".to_string(),
        kbd: 2,
        kbd_max: 4,
        charge: "high_capacity".to_string(),
        charges: "high_capacity balanced".to_string(),
    }
}

const SHOWN: Widgets = Widgets {
    perf: 1,
    auto: true,
    scale: 0,
    kbd_upper: 4,
    kbd: 2,
    charge: 2,
};

#[test]
fn tables_of_the_window() {
    assert_eq!(perf_entry(0), Some(("power_save", "Power Save")));
    assert_eq!(perf_entry(1), Some(("enthusiast", "Balanced")));
    assert_eq!(perf_entry(2), Some(("overboost", "Performance")));
    assert_eq!(perf_entry(3), None);
    assert_eq!(charge_entry(0), Some(("stationary", "Stationary (~60%)")));
    assert_eq!(charge_entry(1), Some(("balanced", "Balanced (~80%)")));
    assert_eq!(charge_entry(2), Some(("high_capacity", "High Capacity (100%)")));
    assert_eq!(charge_entry(9), None);
    for i in 0..3 {
        assert_eq!(perf_index(perf_entry(i).unwrap().0), Some(i));
        assert_eq!(charge_index(charge_entry(i).unwrap().0), Some(i));
    }
    assert_eq!(perf_index("Balanced"), None);
    assert_eq!(charge_index(""), None);
}

#[test]
fn window_sets_only_what_differs() {
    assert_eq!(sensor_text(61, 30), "61 °C  ·  fan 30%");
    let u = refresh(&status(), &SHOWN);
    assert_eq!(u.cpu, "61 °C  ·  fan 30%");
    assert_eq!(u.gpu, "50 °C  ·  fan 31%");
    assert_eq!((u.perf, u.auto, u.scale), (None, None, None));
    assert_eq!((u.kbd_upper, u.kbd, u.charge), (None, None, None));
    assert!(!u.manual_sensitive);
    assert!(u.kbd_visible);
    assert!(u.charge_visible);

    let mut st = status();
    st.manual = Some(40);
    st.profile = "power_save".to_string();
    st.kbd = 3;
    st.kbd_max = 255;
    st.charge = "stationary".to_string();
    let u = refresh(&st, &SHOWN);
    assert_eq!((u.perf, u.auto, u.scale), (Some(0), Some(false), Some(40)));
    assert_eq!((u.kbd_upper, u.kbd, u.charge), (Some(255), Some(3), Some(0)));
    assert!(u.manual_sensitive);
}

#[test]
fn window_hides_what_is_not_there() {
    let mut st = status();
    st.profile = "turbo".to_string();
    st.kbd_max = 0;
    st.kbd = 9;
    st.charges = String::new();
    st.charge = "stationary".to_string();
    let u = refresh(&st, &SHOWN);
    assert_eq!(u.perf, None);
    assert!(!u.kbd_visible);
    assert_eq!((u.kbd_upper, u.kbd), (None, None));
    assert!(!u.charge_visible);
    assert_eq!(u.charge, None);
    st.kbd_max = 4;
    st.kbd = -1;
    assert_eq!(refresh(&st, &SHOWN).kbd, None);
}

fn list(active: &str, names: &[&str]) -> ProfileList {
    ProfileList {
        active: active.to_string(),
        default: String::new(),
        profiles: names
            .iter()
            .map(|n| ProfileMeta {
                name: n.to_string(),
                perf: String::new(),
                curve: vec![(names.len() as i32, 1)],
            })
            .collect(),
    }
}

#[test]
fn profile_list_of_the_window() {
    let pl = list("b", &["a", "b", "c", "b"]);
    let names = profile_names(&pl);
    assert_eq!(names, ["a", "b", "c", "b"]);
    assert!(!names_changed(&names, &names));
    assert!(names_changed(&names, &names[..3].to_vec()));
    let other = ["a", "b", "x", "b"].map(str::to_string).to_vec();
    assert!(names_changed(&other, &names));
    assert_eq!(selection(&names, "b", 0), Some(1));
    assert_eq!(selection(&names, "b", 1), None);
    assert_eq!(selection(&names, "b", 3), Some(1));
    assert_eq!(selection(&names, "z", 0), None);
    assert_eq!(active_meta(&pl).unwrap().name, "b");
    assert!(active_meta(&list("z", &["a"])).is_none());
    assert!(deletable("b"));
    assert!(!deletable("High Performance"));
}

#[test]
fn new_profiles_of_the_window() {
    assert_eq!(new_name("a \"big\" one"), "a big one");
    let (name, cmd) = new_profile("a \"big\" one").unwrap();
    assert_eq!(name, "a big one");
    assert_eq!(
        cmd,
        "SAVEPROFILE {\"name\":\"a big one\",\"perf\":\"enthusiast\",\
         \"curve\":[[25,0],[50,0],[62,24],[80,60],[90,100]]}"
    );
    assert!(new_profile("").is_none());
    assert!(new_profile("\"\"").is_none());
}

#[test]
fn fan_controls_of_the_window() {
    let (cmd, shown) = switch_command(true, 40);
    assert_eq!((cmd.as_str(), shown), ("FANAUTO", "Fan: automatic"));
    let (cmd, shown) = switch_command(false, 40);
    assert_eq!((cmd.as_str(), shown), ("FANMANUAL 40", "Fan: manual"));
    assert_eq!(slider_command(false, false, 40).as_deref(), Some("FANMANUAL 40"));
    assert_eq!(slider_command(true, false, 40), None);
    assert_eq!(slider_command(false, true, 40), None);
}

#[test]
fn outcomes_of_the_window() {
    let ok = Some("OK".to_string());
    assert_eq!(outcome(&ok, "Profile: ", "Balanced", "no"), "Profile: Balanced");
    let err = Some("ERR bad profile".to_string());
    assert_eq!(outcome(&err, "Profile: ", "Balanced", "no"), "no");
    assert_eq!(outcome(&None, "Profile: ", "Balanced", "no"), "no");
    assert_eq!(
        import_outcome(&Some("OK imported 3".to_string())),
        "Imported TUXEDO profiles"
    );
    assert_eq!(import_outcome(&Some("ERR read x".to_string())), "Import failed");
    assert_eq!(import_outcome(&Some("O".to_string())), "Import failed");
    assert_eq!(import_outcome(&None), "Import failed");
}

#[test]
fn edited_points_are_sorted_and_safe() {
    let c = vec![(90, 10), (20, -5), (200, 500), (20, 7), (-3, 3), (80, 99)];
    assert_eq!(
        sorted_clamped(&c),
        vec![(0, 3), (20, 0), (20, 7), (80, 99), (90, 80), (100, 100)]
    );
    assert_eq!(sorted_clamped(&sorted_clamped(&c)), sorted_clamped(&c));
    assert_eq!(sorted_clamped(&vec![]), vec![]);
}

#[test]
fn editor_starts_from_a_curve() {
    let e = Editor::open(&vec![]);
    assert_eq!(*e.points(), vec![(25, 0), (60, 0), (80, 60), (100, 100)]);
    let e = Editor::open(&vec![(85, 5), (50, 5)]);
    assert_eq!(*e.points(), vec![(50, 5), (85, 60)]);
    assert_eq!(e.curve(), vec![(50, 5), (85, 60)]);
}

#[test]
fn editor_drags_between_neighbours() {
    let mut e = Editor::open(&vec![]);
    e.drag(1, 90, 20);
    assert_eq!(e.points()[1], (79, 30));
    e.drag(1, 3, 20);
    assert_eq!(e.points()[1], (26, 20));
    e.drag(0, 90, 50);
    assert_eq!(e.points()[0], (25, 50));
    e.drag(3, 10, 0);
    assert_eq!(e.points()[3], (81, 45));
    e.drag(9, 10, 0);
    assert_eq!(e.points().len(), 4);
    // Without room between the neighbours the point goes where it is dragged; saving sorts.
    let mut e = Editor::open(&vec![(50, 1), (51, 2), (51, 3)]);
    e.drag(1, 70, 9);
    assert_eq!(*e.points(), vec![(50, 1), (70, 9), (51, 3)]);
    assert_eq!(e.curve(), vec![(50, 1), (51, 3), (70, 9)]);
}

#[test]
fn editor_adds_and_removes() {
    let mut e = Editor::open(&vec![(20, 0), (80, 60)]);
    e.double_click(Some(0), 1, 1);
    assert_eq!(e.points().len(), 2);
    e.double_click(None, 90, 10);
    assert_eq!(*e.points(), vec![(20, 0), (80, 60), (90, 80)]);
    e.put(20, 5);
    assert_eq!(*e.points(), vec![(20, 0), (20, 5), (80, 60), (90, 80)]);
    e.remove(9);
    e.double_click(Some(0), 0, 0);
    assert_eq!(*e.points(), vec![(20, 5), (80, 60), (90, 80)]);
    e.remove(0);
    e.remove(0);
    assert_eq!(*e.points(), vec![(80, 60), (90, 80)]);
}

#[test]
fn dashboard_rows() {
    let mut d = mock(models()[0]);
    d.registers().cpu_temp = 7;
    d.registers().gpu_temp = 100;
    d.registers().reg_0751 = 5;
    d.registers().fan1_raw = 200;
    let rows = draw(&read_panel(&d), None);
    let want = [
        (0, "── TUXEDO control  (tuxedo_io 0.3.9-sim) ──"),
        (2, "CPU temp     7 C     fan 100%"),
        (3, "GPU temp   100 C     fan   0%"),
        (5, "mode 0x0751 = 0x05   manual control OK"),
        (6, "manual fan override: none"),
        (8, "q quit   a auto   1 powersave  2 enthusiast  3 overboost   +/- fan ±5%"),
    ];
    assert_eq!(rows.len(), want.len());
    for (r, w) in rows.iter().zip(want) {
        assert_eq!((r.0, r.1.as_str()), w);
    }
    d.registers().reg_0751 = FAN_OWNERSHIP_BIT | 0xa0;
    let rows = draw(&read_panel(&d), Some(35));
    assert_eq!(rows[3].1, "mode 0x0751 = 0xe0   EC owns fan (manual ignored)");
    assert_eq!(rows[4].1, "manual fan override: 35%");
}

struct Dead;

impl EcBackend for Dead {
    fn rd(&self, _req: u64) -> Result<i32, EcError> {
        Err(EcError::Os(5))
    }
    fn wr(&mut self, _req: u64, _v: i32) -> Result<(), EcError> {
        Err(EcError::Os(5))
    }
    fn noarg(&mut self, _req: u64) -> Result<(), EcError> {
        Err(EcError::Os(5))
    }
    fn version(&self) -> Result<String, EcError> {
        Err(EcError::Os(5))
    }
}

#[test]
fn dashboard_of_a_dead_ec() {
    let d = TuxedoIo::from_backend_unchecked(Dead);
    let rows = draw(&read_panel(&d), None);
    assert_eq!(rows[0].1, "── TUXEDO control  (tuxedo_io ) ──");
    assert_eq!(rows[1].1, "CPU temp    -1 C     fan  -1%");
    assert_eq!(
        rows[3].1,
        "mode 0x0751 = 0xffffffff   EC owns fan (manual ignored)"
    );
}

#[test]
fn dashboard_keys() {
    assert_eq!(read_key(Key::Esc), Act::Quit);
    assert_eq!(read_key(Key::Char('q')), Act::Quit);
    assert_eq!(read_key(Key::Char('Q')), Act::Ignore);
    assert_eq!(read_key(Key::Other), Act::Ignore);
    assert_eq!(read_key(Key::Char('=')), Act::Nudge(5));
    assert_eq!(nudge(None, 30, 5), 35);
    assert_eq!(nudge(Some(98), 30, 5), 100);
    assert_eq!(nudge(Some(2), 30, -5), 0);
    assert_eq!(nudge(Some(i32::MAX), 0, 5), 100);

    let mut d = mock(models()[0]);
    let mut manual = None;
    d.registers().fan1_raw = 60;
    assert!(!press(Key::Char('+'), &mut d, &mut manual));
    assert_eq!(manual, Some(35));
    assert_eq!(d.backend().st.fan2_raw, 70);
    assert!(!press(Key::Char('-'), &mut d, &mut manual));
    assert!(!press(Key::Char('-'), &mut d, &mut manual));
    assert_eq!(manual, Some(25));
    assert!(!press(Key::Char('3'), &mut d, &mut manual));
    assert_eq!(d.backend().st.last_perf, 3);
    assert!(!press(Key::Char('1'), &mut d, &mut manual));
    assert_eq!(d.backend().st.last_perf, 1);
    assert!(!press(Key::Char('2'), &mut d, &mut manual));
    assert_eq!(d.backend().st.last_perf, 2);
    assert!(!press(Key::Char('a'), &mut d, &mut manual));
    assert!(d.backend().st.auto);
    assert_eq!(manual, None);
    assert!(press(Key::Char('q'), &mut d, &mut manual));
}

#[test]
fn dashboard_on_a_read_only_board() {
    let mut d = mock(models()[4]);
    let mut manual = None;
    for c in ['+', '-', '1', '2', '3', 'a'] {
        press(Key::Char(c), &mut d, &mut manual);
    }
    let st = d.backend().st;
    assert_eq!((st.fan1_raw, st.fan2_raw, st.last_perf), (0, 0, 0));
    assert!(!st.auto);
}

fn args(s: &[&str]) -> Vec<String> {
    s.iter().map(|s| s.to_string()).collect()
}

#[test]
fn prober_arguments() {
    let cases: [(&[&str], Command); 20] = [
        (&[], Command::Info),
        (&["p"], Command::Info),
        (&["p", "info"], Command::Info),
        (&["p", "set", "40"], Command::Run(Job::Fans(40))),
        (&["p", "set", "-1"], Command::Run(Job::Fans(-1))),
        (&["p", "set", "x"], Command::Usage),
        (&["p", "set"], Command::Usage),
        (&["p", "auto"], Command::Run(Job::Auto)),
        (&["p", "perf", "3"], Command::Run(Job::Perf(3))),
        (&["p", "perf", "0x3"], Command::Usage),
        (&["p", "mode-get"], Command::Run(Job::ModeGet)),
        (&["p", "mode-set", "0x40"], Command::Run(Job::ModeSet(0x40))),
        (&["p", "mode-set", "0x0x40"], Command::Run(Job::ModeSet(0x40))),
        (&["p", "mode-set", "ff"], Command::Run(Job::ModeSet(0xff))),
        (&["p", "mode-set", "0x"], Command::Usage),
        (&["p", "mode-set", "zz"], Command::Usage),
        (&["p", "mode-set"], Command::Usage),
        (&["p", "watch"], Command::Watch),
        (&["p", "SET", "1"], Command::Usage),
        (&["p", ""], Command::Usage),
    ];
    for (a, want) in cases {
        assert_eq!(parse_args(&args(a)), want, "{a:?}");
    }
    assert_eq!(usage().lines().count(), 9);
    assert!(usage().contains("\n  set <0-100>      set both fans"));
}

#[test]
fn prober_jobs() {
    let mut d = mock_unchecked(models()[2]);
    assert_eq!(perform(Job::Fans(50), &mut d).unwrap(), "set both fans -> 50%");
    assert_eq!(d.backend().st.fan1_raw, 100);
    assert_eq!(perform(Job::Auto, &mut d).unwrap(), "restored EC auto fan");
    assert!(d.backend().st.auto);
    assert_eq!(perform(Job::Perf(3), &mut d).unwrap(), "perf profile -> 3");
    assert_eq!(perform(Job::ModeGet, &mut d).unwrap(), "0x0751 = 0x10");
    assert_eq!(perform(Job::ModeSet(5), &mut d).unwrap(), "wrote 0x0751 = 0x05");
    assert_eq!(d.backend().st.reg_0751, 5);
    let mut d = mock(models()[2]);
    assert_eq!(perform(Job::ModeSet(5), &mut d).unwrap_err(), EcError::PermissionDenied);
    assert_eq!(perform(Job::Fans(5), &mut d).unwrap_err(), EcError::PermissionDenied);
}

#[test]
fn prober_report() {
    let mut d = mock_unchecked(models()[0]);
    d.registers().reg_0751 = FAN_OWNERSHIP_BIT;
    let (text, r) = cmd_info(&read_info(&d));
    assert_eq!(r, Ok(()));
    assert_eq!(
        text,
        "module version      : 0.3.9-sim\n\
         uniwill hardware    : 1\n\
         model id            : 0x1a\n\
         mode reg 0x0751     : 0x40  (fan-ownership bit 0x40 = SET -> manual fan IGNORED)\n\
         fans-off available  : 1\n\
         fans min speed %    : 25\n\
         perf profiles avail : 3\n\
         CPU temp            : 45 C\n\
         GPU temp            : 0 C\n\
         CPU fan duty        : 0%\n\
         GPU fan duty        : 0%\n"
    );
    assert_eq!(
        cmd_watch(&read_sensors(&d)).unwrap(),
        "cpu 45C fan 0%  | gpu 0C fan 0%  | 0x0751=0x40 (EC owns fan)"
    );
}

#[test]
fn prober_report_stops_at_a_failure() {
    let d = mock_unchecked(models()[0]);
    let mut i = read_info(&d);
    i.model_id = Err(EcError::Os(22));
    i.cpu_temp = Err(EcError::Os(5));
    let (text, r) = cmd_info(&i);
    assert_eq!(
        text,
        "module version      : 0.3.9-sim\nuniwill hardware    : 1\n"
    );
    assert_eq!(r, Err(EcError::Os(22)));
    let mut w = read_sensors(&d);
    w.cpu_temp = Err(EcError::Os(5));
    w.gpu_fan = Err(EcError::Os(6));
    assert_eq!(cmd_watch(&w).unwrap_err(), EcError::Os(5));
    w.mode = Err(EcError::Os(1));
    assert_eq!(cmd_watch(&w).unwrap_err(), EcError::Os(1));
    i.mode = Err(EcError::Os(1));
    assert_eq!(cmd_info(&i), (String::new(), Err(EcError::Os(1))));
}

#[test]
fn performance_profile_of_each_key() {
    for (c, p) in [
        ('1', PerfProfile::PowerSave),
        ('2', PerfProfile::Enthusiast),
        ('3', PerfProfile::Overboost),
    ] {
        assert_eq!(read_key(Key::Char(c)), Act::Perf(p));
    }
}
