//! The socket protocol, request by request.

use tuxedo_control::gui::{
    activate_command, charge_command, default_command, delete_command, import_command,
    kbd_command, manual_command, profile_command, save_command,
};
use tuxedo_control::perf::PerfProfile;
use tuxedo_control::profiles::{builtins, default_store, Profile, Store, TccProfile};
use tuxedo_control::server::{begin, listing, parse, resume, Event, Request, Step};
use tuxedo_control::shared::Shared;
use tuxedo_control::sim::{mock, models, MockEc};
use tuxedo_control::device::TuxedoIo;

struct Daemon {
    dev: TuxedoIo<MockEc>,
    shared: Shared,
    store: Store,
}

fn daemon() -> Daemon {
    Daemon {
        dev: mock(models()[0]),
        shared: Shared::default(),
        store: default_store(),
    }
}

fn read_only() -> Daemon {
    let mut d = daemon();
    d.dev = mock(models()[1]);
    d.shared.read_only = true;
    d
}

impl Daemon {
    fn ask(&mut self, line: &str) -> Step {
        begin(parse(line), &mut self.dev, &mut self.shared, &mut self.store)
    }
    fn tell(&mut self, ev: Event) -> Step {
        resume(ev, &mut self.shared, &mut self.store)
    }
}

fn replied(s: Step) -> String {
    match s {
        Step::Reply(r) => r,
        _ => panic!("no reply"),
    }
}

fn saved(s: Step) -> String {
    match s {
        Step::Save(r) => r,
        _ => panic!("nothing to save"),
    }
}

fn mine(name: &str) -> Profile {
    let mut p = builtins()[2].clone();
    p.name = name.to_string();
    p
}

#[test]
fn status_is_what_was_noted() {
    let mut d = daemon();
    d.shared.cpu_temp = 55;
    let want = d.shared.status();
    assert_eq!(replied(d.ask("STATUS\n")), want);
    assert_eq!(replied(d.ask("STATUS now please\n")), want);
    assert_eq!(replied(read_only().ask("STATUS")), read_only().shared.status());
}

#[test]
fn performance_profiles() {
    let mut d = daemon();
    assert_eq!(replied(d.ask("PROFILE Performance\n")), "OK");
    assert_eq!(d.dev.backend().st.last_perf, 3);
    assert_eq!(d.shared.profile, "overboost");
    assert_eq!(replied(d.ask("PROFILE turbo\n")), "ERR bad profile");
    assert_eq!(replied(d.ask("PROFILE\n")), "ERR bad profile");
    assert_eq!(d.shared.profile, "overboost");
    // What the EC answers is not looked at.
    d.dev = mock(models()[1]);
    assert_eq!(replied(d.ask("PROFILE power_save\n")), "OK");
    assert_eq!(d.dev.backend().st.last_perf, 0);
    assert_eq!(d.shared.profile, "power_save");
}

#[test]
fn read_only_board_refuses() {
    let mut d = read_only();
    for line in ["PROFILE power_save", "PROFILE x", "PROFILE", "FANMANUAL 50", "FANMANUAL"] {
        assert_eq!(replied(d.ask(line)), "ERR read-only (unsupported model)");
    }
    assert_eq!(d.shared.manual, None);
    assert_eq!(d.shared.profile, "");
    assert_eq!(d.dev.backend().st.last_perf, 0);
    assert_eq!(replied(d.ask("FANAUTO")), "OK");
    match d.ask("ACTIVATE Max Energy Save") {
        Step::Apply(name, w) => {
            assert_eq!(name, "Max Energy Save");
            assert!(w.kbd.is_none());
        }
        _ => panic!("not applied"),
    }
    assert_eq!(d.dev.backend().st.last_perf, 0);
}

#[test]
fn fan_override() {
    let mut d = daemon();
    assert_eq!(replied(d.ask("FANMANUAL 40\n")), "OK");
    assert_eq!(d.shared.manual, Some(40));
    assert_eq!(replied(d.ask("FANMANUAL 400\n")), "OK");
    assert_eq!(d.shared.manual, Some(100));
    assert_eq!(replied(d.ask("FANMANUAL -4\n")), "OK");
    assert_eq!(d.shared.manual, Some(0));
    assert_eq!(replied(d.ask("FANMANUAL 4.5\n")), "ERR bad pct");
    assert_eq!(replied(d.ask("FANMANUAL\n")), "ERR bad pct");
    assert_eq!(d.shared.manual, Some(0));
    assert_eq!(replied(d.ask("FANAUTO\n")), "OK");
    assert_eq!(d.shared.manual, None);
}

#[test]
fn keyboard_brightness() {
    let mut d = daemon();
    assert_eq!(replied(d.ask("KBDSET 2")), "ERR no kbd backlight");
    assert_eq!(replied(d.ask("KBDSET x")), "ERR bad value");
    assert_eq!(replied(d.ask("KBDSET")), "ERR bad value");
    d.shared.kbd_dir = Some("/led".to_string());
    match d.ask("KBDSET -2") {
        Step::WriteKbd(w, v) => {
            assert_eq!(w.path, "/led/brightness");
            assert_eq!(w.text, "0");
            assert_eq!(v, -2);
        }
        _ => panic!("no write"),
    }
    assert_eq!(d.shared.kbd_cur, 0);
    assert_eq!(replied(d.tell(Event::KbdWritten(3, false))), "ERR write");
    assert_eq!(d.shared.kbd_cur, 0);
    assert_eq!(replied(d.tell(Event::KbdWritten(3, true))), "OK");
    assert_eq!(d.shared.kbd_cur, 3);
}

#[test]
fn charging_profile() {
    let mut d = daemon();
    assert_eq!(replied(d.ask("CHARGE")), "ERR bad value");
    assert_eq!(replied(d.ask("CHARGE half")), "ERR charge set");
    match d.ask("CHARGE stationary\n") {
        Step::WriteCharge(c) => assert_eq!(c, "stationary"),
        _ => panic!("no write"),
    }
    let c = || "stationary".to_string();
    assert_eq!(replied(d.tell(Event::ChargeWritten(c(), false))), "ERR charge set");
    assert_eq!(d.shared.charge, "");
    assert_eq!(replied(d.tell(Event::ChargeWritten(c(), true))), "OK");
    assert_eq!(d.shared.charge, "stationary");
}

#[test]
fn activating_a_profile() {
    let mut d = daemon();
    d.shared.kbd_dir = Some("/led".to_string());
    assert_eq!(replied(d.ask("ACTIVATE Nothing")), "ERR no such profile");
    assert_eq!(replied(d.ask("ACTIVATE")), "ERR unknown");
    assert_eq!(replied(d.ask("ACTIVATE  \n")), "ERR unknown");
    match d.ask("ACTIVATE Max Energy Save \n") {
        Step::Apply(name, w) => {
            assert_eq!(name, "Max Energy Save");
            assert_eq!(w.kbd.unwrap().text, "0");
            assert!(w.charge.is_none());
        }
        _ => panic!("not applied"),
    }
    assert_eq!(d.dev.backend().st.last_perf, 1);
    assert_eq!(d.store.active, "Quiet");
    let ev = Event::Applied("Max Energy Save".to_string(), Some("balanced".to_string()));
    assert_eq!(saved(d.tell(ev)), "OK");
    assert_eq!(d.store.active, "Max Energy Save");
    assert_eq!(d.shared.charge, "balanced");
}

#[test]
fn default_profile() {
    let mut d = daemon();
    assert_eq!(saved(d.ask("SETDEFAULT High Performance")), "OK");
    assert_eq!(d.store.default, "High Performance");
    assert_eq!(replied(d.ask("SETDEFAULT Low")), "ERR no such profile");
    assert_eq!(replied(d.ask("SETDEFAULT")), "ERR unknown");
    assert_eq!(d.store.default, "High Performance");
}

#[test]
fn deleting_profiles() {
    let mut d = daemon();
    d.store.put(mine("My own"));
    d.store.active = "My own".to_string();
    assert_eq!(
        replied(d.ask("DELPROFILE Quiet")),
        "ERR built-in profiles cannot be deleted"
    );
    assert_eq!(saved(d.ask("DELPROFILE My own\n")), "OK");
    assert!(d.store.get("My own").is_none());
    assert_eq!(d.store.active, "Quiet");
    // Deleting what is not there is no error.
    assert_eq!(saved(d.ask("DELPROFILE My own")), "OK");
    assert_eq!(replied(d.ask("DELPROFILE")), "ERR unknown");
    assert_eq!(d.store.profiles.len(), 4);
}

#[test]
fn saving_profiles() {
    let mut d = daemon();
    match d.ask("SAVEPROFILE {\"name\":\"A b\"}\n") {
        Step::ParseProfile(j) => assert_eq!(j, "{\"name\":\"A b\"}"),
        _ => panic!("not parsed"),
    }
    match d.ask("SAVEPROFILE") {
        Step::ParseProfile(j) => assert_eq!(j, ""),
        _ => panic!("not parsed"),
    }
    assert_eq!(replied(d.tell(Event::Parsed(Err("EOF".to_string())))), "ERR EOF");
    assert_eq!(saved(d.tell(Event::Parsed(Ok(mine("Office"))))), "OK");
    assert_eq!(d.store.profiles.len(), 4);
    assert_eq!(d.store.profiles[3].name, "Office");
}

#[test]
fn importing_profiles() {
    let mut d = daemon();
    match d.ask("IMPORTTCC /home/me/my profiles.json\n") {
        Step::ReadExport(p) => assert_eq!(p, "/home/me/my profiles.json"),
        _ => panic!("not read"),
    }
    assert_eq!(replied(d.ask("IMPORTTCC")), "ERR unknown");
    let none = Event::Export(Err("No such file".to_string()));
    assert_eq!(replied(d.tell(none)), "ERR read No such file");
    let bad = Event::Export(Ok(Err("expected `[`".to_string())));
    assert_eq!(replied(d.tell(bad)), "ERR expected `[`");
    let one = |n: Option<&str>| TccProfile {
        name: n.map(str::to_string),
        fan: None,
        odm_profile: None,
    };
    let some = Event::Export(Ok(Ok(vec![one(Some("T")), one(None), one(Some("Quiet"))])));
    assert_eq!(saved(d.tell(some)), "OK imported 2");
    assert_eq!(d.store.profiles.len(), 5);
    assert_eq!(d.store.get("Quiet").unwrap().perf, "enthusiast");
}

#[test]
fn listing_profiles() {
    let mut d = daemon();
    assert!(matches!(d.ask("LISTPROFILES\n"), Step::List));
    assert_eq!(listing(Some("{}".to_string())), "{}");
    assert_eq!(listing(None), "ERR");
}

#[test]
fn what_is_not_understood() {
    let mut d = daemon();
    for line in ["", "\n", "   ", "status", "STATUS?", "HELP", "FANAUTO2"] {
        assert_eq!(replied(d.ask(line)), "ERR unknown");
    }
    // A line that begins with whitespace: the rest is the whole of it.
    match parse(" ACTIVATE Quiet") {
        Request::Activate(n) => assert_eq!(n, "ACTIVATE Quiet"),
        _ => panic!("not understood"),
    }
}

#[test]
fn replies_are_single_lines() {
    let mut d = daemon();
    d.shared.charge = "balanced".to_string();
    for line in ["STATUS\n", "PROFILE x\n", "KBDSET 1\n", "CHARGE x\n", "FANAUTO\n", "\n"] {
        assert!(!replied(d.ask(line)).contains('\n'));
    }
    assert!(!saved(d.ask("SETDEFAULT Office\n")).contains('\n'));
    let message = || "expected value at line 1 column 1".to_string();
    for ev in [
        Event::KbdWritten(1, true),
        Event::KbdWritten(1, false),
        Event::ChargeWritten(message(), false),
        Event::Parsed(Err(message())),
        Event::Export(Ok(Err(message()))),
        Event::Export(Err(message())),
    ] {
        assert!(!replied(d.tell(ev)).contains('\n'));
    }
    assert!(!saved(d.tell(Event::Export(Ok(Ok(vec![]))))).contains('\n'));
    assert!(!saved(d.tell(Event::Parsed(Ok(mine("x"))))).contains('\n'));
}

#[test]
fn commands_of_the_window_are_understood() {
    for p in [PerfProfile::PowerSave, PerfProfile::Enthusiast, PerfProfile::Overboost] {
        let line = format!("{}\n", profile_command(p.as_id()));
        assert!(matches!(parse(&line), Request::Profile(Some(q)) if q == p));
    }
    for v in [0, 35, 100, -1] {
        let line = format!("{}\n", manual_command(v));
        assert!(matches!(parse(&line), Request::FanManual(Some(w)) if w == v));
        let line = format!("{}\n", kbd_command(v));
        assert!(matches!(parse(&line), Request::KbdSet(Some(w)) if w == v));
    }
    let line = format!("{}\n", charge_command("balanced"));
    assert!(matches!(parse(&line), Request::Charge(Some(c)) if c == "balanced"));
    let name = "Max Energy Save";
    assert!(matches!(parse(&activate_command(name)), Request::Activate(n) if n == name));
    assert!(matches!(parse(&default_command(name)), Request::SetDefault(n) if n == name));
    assert!(matches!(parse(&delete_command(name)), Request::DelProfile(n) if n == name));
    assert!(matches!(parse(&import_command("/a b")), Request::ImportTcc(n) if n == "/a b"));
    let line = save_command("A b", "overboost", &[(1, 2), (3, 4)]);
    match parse(&line) {
        Request::SaveProfile(j) => {
            assert_eq!(j, "{\"name\":\"A b\",\"perf\":\"overboost\",\"curve\":[[1,2],[3,4]]}");
            let v: serde_json::Value = serde_json::from_str(&j).unwrap();
            assert_eq!(v["curve"][1][0].as_i64(), Some(3));
        }
        _ => panic!("not understood"),
    }
}
