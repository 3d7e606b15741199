//! What the window shows and what it asks the daemon for.

use crate::number::{
    dec, decimal, decimal_round_trip, digit_value, digits, lemma_digits_value, push_dec,
};
use crate::perf::{id_names_profile, PerfProfile};
use crate::profiles::{builtin_name, is_builtin, opt_text};
use crate::server::{command, int_arg, perf_arg, request_of, RequestView};
use crate::sysfs::charge_known;
use crate::text::{
    chars_of, command_splits, is_white, same, texts, trailing_white_is_ignored, trimmed, words,
};
use vstd::prelude::*;
use vstd::string::*;

verus! {

/// What the daemon says of itself.
pub struct Status {
    pub cpu_temp: i32,
    pub gpu_temp: i32,
    pub cpu_fan: i32,
    pub gpu_fan: i32,
    pub manual: Option<i32>,
    pub profile: String,
    pub kbd: i32,
    pub kbd_max: i32,
    pub charge: String,
    pub charges: String,
}

/// One profile of the daemon's list.
pub struct ProfileMeta {
    pub name: String,
    pub perf: String,
    pub curve: Vec<(i32, i32)>,
}

/// The daemon's profiles.
pub struct ProfileList {
    pub active: String,
    pub default: String,
    pub profiles: Vec<ProfileMeta>,
}

/// The ids and labels of the performance profiles, as they are offered.
pub open spec fn perf_table() -> Seq<(Seq<char>, Seq<char>)> {
    seq![
        ("power_save"@, "Power Save"@),
        ("enthusiast"@, "Balanced"@),
        ("overboost"@, "Performance"@),
    ]
}

/// The ids and labels of the charging profiles, from low to high capacity.
pub open spec fn charge_table() -> Seq<(Seq<char>, Seq<char>)> {
    seq![
        ("stationary"@, "Stationary (~60%)"@),
        ("balanced"@, "Balanced (~80%)"@),
        ("high_capacity"@, "High Capacity (100%)"@),
    ]
}

/// The position of the first entry with that id.
pub open spec fn position(t: Seq<(Seq<char>, Seq<char>)>, id: Seq<char>) -> Option<int>
    decreases t.len(),
{
    if t.len() == 0 {
        None
    } else if position(t.drop_last(), id) is Some {
        position(t.drop_last(), id)
    } else if t.last().0 == id {
        Some(t.len() - 1)
    } else {
        None
    }
}

/// A position is that of an entry with the id, and no entry before it has that id. Where there
/// is none, no entry has it.
pub proof fn position_is_first(t: Seq<(Seq<char>, Seq<char>)>, id: Seq<char>)
    ensures
        match position(t, id) {
            Some(i) => 0 <= i < t.len() && t[i].0 == id && forall|j: int|
                0 <= j < i ==> (#[trigger] t[j]).0 != id,
            None => forall|j: int| 0 <= j < t.len() ==> (#[trigger] t[j]).0 != id,
        },
    decreases t.len(),
{
    if t.len() > 0 {
        position_is_first(t.drop_last(), id);
        assert forall|j: int| 0 <= j < t.len() - 1 implies #[trigger] t[j]
            == t.drop_last()[j] by {}
    }
}

/// The id and label of a performance profile by its position.
pub fn perf_entry(i: usize) -> (r: Option<(&'static str, &'static str)>)
    ensures
        r is Some == (i < 3),
        r is Some ==> ((r->0).0@, (r->0).1@) == perf_table()[i as int],
{
    match i {
        0 => Some(("power_save", "Power Save")),
        1 => Some(("enthusiast", "Balanced")),
        2 => Some(("overboost", "Performance")),
        _ => None,
    }
}

/// The id and label of a charging profile by its position.
pub fn charge_entry(i: usize) -> (r: Option<(&'static str, &'static str)>)
    ensures
        r is Some == (i < 3),
        r is Some ==> ((r->0).0@, (r->0).1@) == charge_table()[i as int],
{
    match i {
        0 => Some(("stationary", "Stationary (~60%)")),
        1 => Some(("balanced", "Balanced (~80%)")),
        2 => Some(("high_capacity", "High Capacity (100%)")),
        _ => None,
    }
}

/// A position as the mathematical number it is.
pub open spec fn opt_int(i: Option<usize>) -> Option<int> {
    match i {
        Some(i) => Some(i as int),
        None => None,
    }
}

/// The position of a performance profile by its id.
pub fn perf_index(id: &str) -> (r: Option<usize>)
    ensures
        opt_int(r) == position(perf_table(), id@),
{
    proof {
        position_is_first(perf_table(), id@);
    }
    if same("power_save", id) {
        Some(0)
    } else if same("enthusiast", id) {
        Some(1)
    } else if same("overboost", id) {
        Some(2)
    } else {
        None
    }
}

/// The position of a charging profile by its id.
pub fn charge_index(id: &str) -> (r: Option<usize>)
    ensures
        opt_int(r) == position(charge_table(), id@),
{
    proof {
        position_is_first(charge_table(), id@);
    }
    if same("stationary", id) {
        Some(0)
    } else if same("balanced", id) {
        Some(1)
    } else if same("high_capacity", id) {
        Some(2)
    } else {
        None
    }
}

/// What the window reads off its widgets.
#[derive(Clone, Copy, Debug, PartialEq, Eq, Structural)]
pub struct Widgets {
    pub perf: usize,
    pub auto: bool,
    pub scale: i32,
    pub kbd_upper: i32,
    pub kbd: i32,
    pub charge: usize,
}

/// What the window changes. Nothing is set that is set already, so that a user's hand on a
/// widget is not disturbed.
pub struct Updates {
    pub cpu: String,
    pub gpu: String,
    pub perf: Option<usize>,
    pub auto: Option<bool>,
    /// Whether the manual slider can be moved.
    pub manual_sensitive: bool,
    pub scale: Option<i32>,
    pub kbd_visible: bool,
    pub kbd_upper: Option<i32>,
    pub kbd: Option<i32>,
    pub charge_visible: bool,
    pub charge: Option<usize>,
}

/// A temperature and a fan duty.
pub open spec fn sensor(temp: int, fan: int) -> Seq<char> {
    dec(temp) + " °C  ·  fan "@ + dec(fan) + "%"@
}

/// A temperature and a fan duty, as they are shown.
pub fn sensor_text(temp: i32, fan: i32) -> (r: String)
    ensures
        r@ == sensor(temp as int, fan as int),
{
    let mut s = decimal(temp);
    s.append(" °C  ·  fan ");
    push_dec(&mut s, fan);
    s.append("%");
    s
}

/// What is to be set where `cur` is shown and `new` should be.
pub open spec fn change(new: Option<int>, cur: int) -> Option<int> {
    if new == Some(cur) {
        None
    } else {
        new
    }
}

fn index_change(new: Option<usize>, cur: usize) -> (r: Option<usize>)
    ensures
        opt_int(r) == change(opt_int(new), cur as int),
{
    match new {
        Some(i) => if i != cur {
            Some(i)
        } else {
            None
        },
        None => None,
    }
}

fn value_change(new: i32, cur: i32) -> (r: Option<i32>)
    ensures
        r == if new != cur {
            Some(new)
        } else {
            None
        },
{
    if new != cur {
        Some(new)
    } else {
        None
    }
}

/// What the window changes to show `st`.
pub fn refresh(st: &Status, w: &Widgets) -> (u: Updates)
    ensures
        u.cpu@ == sensor(st.cpu_temp as int, st.cpu_fan as int),
        u.gpu@ == sensor(st.gpu_temp as int, st.gpu_fan as int),
        opt_int(u.perf) == change(position(perf_table(), st.profile@), w.perf as int),
        u.auto == if w.auto != (st.manual is None) {
            Some(st.manual is None)
        } else {
            None
        },
        u.manual_sensitive == (st.manual is Some),
        u.scale == if st.manual is Some && st.manual->0 != w.scale {
            st.manual
        } else {
            None
        },
        u.kbd_visible == (st.kbd_max > 0),
        u.kbd_upper == if st.kbd_max > 0 && st.kbd_max != w.kbd_upper {
            Some(st.kbd_max)
        } else {
            None
        },
        u.kbd == if st.kbd_max > 0 && st.kbd >= 0 && st.kbd != w.kbd {
            Some(st.kbd)
        } else {
            None
        },
        u.charge_visible == (st.charges@.len() > 0),
        opt_int(u.charge) == if st.charges@.len() > 0 {
            change(position(charge_table(), st.charge@), w.charge as int)
        } else {
            None
        },
{
    let is_auto = st.manual.is_none();
    let has_kbd = st.kbd_max > 0;
    let has_charge = st.charges.as_str().unicode_len() > 0;
    Updates {
        cpu: sensor_text(st.cpu_temp, st.cpu_fan),
        gpu: sensor_text(st.gpu_temp, st.gpu_fan),
        perf: index_change(perf_index(st.profile.as_str()), w.perf),
        auto: if w.auto != is_auto {
            Some(is_auto)
        } else {
            None
        },
        manual_sensitive: !is_auto,
        scale: match st.manual {
            Some(m) => value_change(m, w.scale),
            None => None,
        },
        kbd_visible: has_kbd,
        kbd_upper: if has_kbd {
            value_change(st.kbd_max, w.kbd_upper)
        } else {
            None
        },
        kbd: if has_kbd && st.kbd >= 0 {
            value_change(st.kbd, w.kbd)
        } else {
            None
        },
        charge_visible: has_charge,
        charge: if has_charge {
            index_change(charge_index(st.charge.as_str()), w.charge)
        } else {
            None
        },
    }
}

/// The names of listed profiles.
pub open spec fn meta_names(ps: Seq<ProfileMeta>) -> Seq<Seq<char>> {
    ps.map_values(|p: ProfileMeta| p.name@)
}

/// The names of the daemon's profiles, in order.
pub fn profile_names(pl: &ProfileList) -> (r: Vec<String>)
    ensures
        texts(r@) == meta_names(pl.profiles@),
{
    let ps = &pl.profiles;
    let mut r: Vec<String> = Vec::new();
    for i in 0..ps.len()
        invariant
            r@.len() == i,
            forall|j: int| 0 <= j < i ==> (#[trigger] r@[j])@ == ps@[j].name@,
    {
        r.push(ps[i].name.clone());
    }
    assert(texts(r@) == meta_names(ps@));
    r
}

/// Whether the shown names are not the daemon's any more.
pub fn names_changed(shown: &Vec<String>, names: &Vec<String>) -> (r: bool)
    ensures
        r == (texts(shown@) != texts(names@)),
{
    assert(texts(shown@).len() == shown@.len());
    assert(texts(names@).len() == names@.len());
    if shown.len() != names.len() {
        return true;
    }
    for i in 0..shown.len()
        invariant
            shown@.len() == names@.len(),
            forall|j: int| 0 <= j < i ==> (#[trigger] shown@[j])@ == names@[j]@,
    {
        if !same(shown[i].as_str(), names[i].as_str()) {
            assert(texts(shown@)[i as int] != texts(names@)[i as int]);
            return true;
        }
    }
    assert(texts(shown@) == texts(names@));
    false
}

/// Whether `i` is the first position of `name` in `names`.
pub open spec fn first_at(names: Seq<Seq<char>>, name: Seq<char>, i: int) -> bool {
    &&& 0 <= i < names.len()
    &&& names[i] == name
    &&& forall|j: int| 0 <= j < i ==> names[j] != name
}

/// The position to select so that the active profile is shown, where another is.
pub fn selection(names: &Vec<String>, active: &str, selected: usize) -> (r: Option<usize>)
    ensures
        match r {
            Some(i) => i != selected && first_at(texts(names@), active@, i as int),
            None => first_at(texts(names@), active@, selected as int) || !texts(names@).contains(
                active@,
            ),
        },
{
    for i in 0..names.len()
        invariant
            forall|j: int| 0 <= j < i ==> texts(names@)[j] != active@,
    {
        assert(texts(names@)[i as int] == names@[i as int]@);
        if same(names[i].as_str(), active) {
            return if i != selected {
                Some(i)
            } else {
                None
            };
        }
    }
    None
}

/// Whether the delete button works. The daemon keeps its built-in profiles.
pub fn deletable(active: &str) -> (r: bool)
    ensures
        r == !builtin_name(active@),
{
    !is_builtin(active)
}

/// The first listed profile that is the active one.
pub fn active_meta(pl: &ProfileList) -> (r: Option<&ProfileMeta>)
    ensures
        match r {
            Some(p) => exists|i: int|
                first_at(meta_names(pl.profiles@), pl.active@, i) && *p == pl.profiles@[i],
            None => !meta_names(pl.profiles@).contains(pl.active@),
        },
{
    let ghost names = meta_names(pl.profiles@);
    for i in 0..pl.profiles.len()
        invariant
            names == meta_names(pl.profiles@),
            forall|j: int| 0 <= j < i ==> names[j] != pl.active@,
    {
        assert(names[i as int] == pl.profiles@[i as int].name@);
        if same(pl.profiles[i].name.as_str(), pl.active.as_str()) {
            assert(first_at(names, pl.active@, i as int));
            return Some(&pl.profiles[i]);
        }
    }
    None
}

/// A command with an argument.
pub open spec fn command_text(word: Seq<char>, arg: Seq<char>) -> Seq<char> {
    word + " "@ + arg
}

fn with_arg(word: &str, arg: &str) -> (r: String)
    ensures
        r@ == command_text(word@, arg@),
{
    let mut s = word.to_string();
    s.append(" ");
    s.append(arg);
    s
}

/// Asks for a performance profile.
pub fn profile_command(id: &str) -> (r: String)
    ensures
        r@ == command_text("PROFILE"@, id@),
{
    with_arg("PROFILE", id)
}

/// Asks for a fixed fan duty.
pub fn manual_command(pct: i32) -> (r: String)
    ensures
        r@ == command_text("FANMANUAL"@, dec(pct as int)),
{
    with_arg("FANMANUAL", decimal(pct).as_str())
}

/// What the automatic switch sends when it is turned, and what is shown then.
pub fn switch_command(auto: bool, pct: i32) -> (r: (String, &'static str))
    ensures
        r.0@ == if auto {
            "FANAUTO"@
        } else {
            command_text("FANMANUAL"@, dec(pct as int))
        },
        r.1@ == if auto {
            "Fan: automatic"@
        } else {
            "Fan: manual"@
        },
{
    if auto {
        ("FANAUTO".to_string(), "Fan: automatic")
    } else {
        (manual_command(pct), "Fan: manual")
    }
}

/// What the manual slider sends when it is moved: nothing while the window itself moves it, and
/// nothing while the fan is automatic.
pub fn slider_command(updating: bool, auto: bool, pct: i32) -> (r: Option<String>)
    ensures
        opt_text(r) == if updating || auto {
            None
        } else {
            Some(command_text("FANMANUAL"@, dec(pct as int)))
        },
{
    if updating || auto {
        None
    } else {
        Some(manual_command(pct))
    }
}

/// Asks for a keyboard brightness.
pub fn kbd_command(v: i32) -> (r: String)
    ensures
        r@ == command_text("KBDSET"@, dec(v as int)),
{
    with_arg("KBDSET", decimal(v).as_str())
}

/// Asks for a charging profile.
pub fn charge_command(id: &str) -> (r: String)
    ensures
        r@ == command_text("CHARGE"@, id@),
{
    with_arg("CHARGE", id)
}

/// Asks for a profile to become the active one.
pub fn activate_command(name: &str) -> (r: String)
    ensures
        r@ == command_text("ACTIVATE"@, name@),
{
    with_arg("ACTIVATE", name)
}

/// Asks for a profile to be deleted.
pub fn delete_command(name: &str) -> (r: String)
    ensures
        r@ == command_text("DELPROFILE"@, name@),
{
    with_arg("DELPROFILE", name)
}

/// Asks for a profile to become the default one.
pub fn default_command(name: &str) -> (r: String)
    ensures
        r@ == command_text("SETDEFAULT"@, name@),
{
    with_arg("SETDEFAULT", name)
}

/// Asks for the import of an export file.
pub fn import_command(path: &str) -> (r: String)
    ensures
        r@ == command_text("IMPORTTCC"@, path@),
{
    with_arg("IMPORTTCC", path)
}

/// The points of a curve in JSON.
pub open spec fn json_points(c: Seq<(i32, i32)>) -> Seq<char>
    decreases c.len(),
{
    if c.len() == 0 {
        Seq::empty()
    } else {
        let p = c.last();
        let before = json_points(c.drop_last());
        (if c.len() == 1 {
            before
        } else {
            before + ","@
        }) + "["@ + dec(p.0 as int) + ","@ + dec(p.1 as int) + "]"@
    }
}

/// A profile in JSON. The texts stand in it as they are.
pub open spec fn json_profile(
    name: Seq<char>,
    perf: Seq<char>,
    curve: Seq<(i32, i32)>,
) -> Seq<char> {
    "{\"name\":\""@ + name + "\",\"perf\":\""@ + perf + "\",\"curve\":["@ + json_points(curve)
        + "]}"@
}

fn points_text(c: &[(i32, i32)]) -> (r: String)
    ensures
        r@ == json_points(c@),
{
    let mut s = String::new();
    for i in 0..c.len()
        invariant
            s@ == json_points(c@.take(i as int)),
    {
        assert(c@.take(i + 1).drop_last() == c@.take(i as int));
        if i > 0 {
            s.append(",");
        }
        let (t, d) = c[i];
        s.append("[");
        push_dec(&mut s, t);
        s.append(",");
        push_dec(&mut s, d);
        s.append("]");
    }
    assert(c@.take(c@.len() as int) == c@);
    s
}

/// Asks for a profile to be saved.
pub fn save_command(name: &str, perf: &str, curve: &[(i32, i32)]) -> (r: String)
    ensures
        r@ == command_text("SAVEPROFILE"@, json_profile(name@, perf@, curve@)),
{
    let mut s = "{\"name\":\"".to_string();
    s.append(name);
    s.append("\",\"perf\":\"");
    s.append(perf);
    s.append("\",\"curve\":[");
    s.append(points_text(curve).as_str());
    s.append("]}");
    with_arg("SAVEPROFILE", s.as_str())
}

/// The curve of a new profile.
pub open spec fn new_curve() -> Seq<(i32, i32)> {
    seq![(25, 0), (50, 0), (62, 24), (80, 60), (90, 100)]
}

/// A text without its double quotes.
pub open spec fn unquoted(s: Seq<char>) -> Seq<char> {
    s.filter(|c: char| c != '"')
}

/// The name of a new profile, from what was typed: double quotes are left out.
pub fn new_name(entry: &str) -> (r: String)
    ensures
        r@ == unquoted(entry@),
{
    let v = chars_of(entry);
    let mut s = String::new();
    proof {
        reveal(Seq::filter);
        assert(v@.take(0) == Seq::<char>::empty());
    }
    for i in 0..v.len()
        invariant
            s@ == unquoted(v@.take(i as int)),
    {
        proof {
            reveal(Seq::filter);
            assert(v@.take(i + 1).drop_last() == v@.take(i as int));
        }
        if v[i] != '"' {
            s.push(v[i]);
        }
    }
    assert(v@.take(v@.len() as int) == v@);
    s
}

/// The name of a new profile, and the command that saves it. Nothing where the name is empty.
pub fn new_profile(entry: &str) -> (r: Option<(String, String)>)
    ensures
        match r {
            Some((name, cmd)) => unquoted(entry@).len() > 0 && name@ == unquoted(entry@) && cmd@
                == command_text(
                "SAVEPROFILE"@,
                json_profile(unquoted(entry@), "enthusiast"@, new_curve()),
            ),
            None => unquoted(entry@).len() == 0,
        },
{
    let name = new_name(entry);
    if name.as_str().unicode_len() == 0 {
        return None;
    }
    let curve: Vec<(i32, i32)> = vec![(25, 0), (50, 0), (62, 24), (80, 60), (90, 100)];
    assert(curve@ == new_curve());
    let cmd = save_command(name.as_str(), "enthusiast", curve.as_slice());
    Some((name, cmd))
}

/// Whether the daemon did what it was asked for.
pub open spec fn granted(reply: Option<Seq<char>>) -> bool {
    reply == Some("OK"@)
}

/// What is shown after a command: what was done, or that it failed.
pub fn outcome(reply: &Option<String>, done: &str, what: &str, failed: &str) -> (r: String)
    ensures
        r@ == if granted(opt_text(*reply)) {
            done@ + what@
        } else {
            failed@
        },
{
    match reply {
        Some(s) => if same(s.as_str(), "OK") {
            let mut t = done.to_string();
            t.append(what);
            return t;
        },
        None => {},
    }
    failed.to_string()
}

/// Whether a reply begins with OK.
pub open spec fn begins_ok(s: Seq<char>) -> bool {
    s.len() >= 2 && s[0] == 'O' && s[1] == 'K'
}

/// What is shown after an import.
pub fn import_outcome(reply: &Option<String>) -> (r: &'static str)
    ensures
        r@ == if reply is Some && begins_ok(reply->0@) {
            "Imported TUXEDO profiles"@
        } else {
            "Import failed"@
        },
{
    match reply {
        Some(s) => {
            let v = chars_of(s.as_str());
            if v.len() >= 2 && v[0] == 'O' && v[1] == 'K' {
                return "Imported TUXEDO profiles";
            }
        },
        None => {},
    }
    "Import failed"
}

/// Whether a text is one word.
pub open spec fn one_word(s: Seq<char>) -> bool {
    s.len() > 0 && forall|i: int| 0 <= i < s.len() ==> !is_white(s[i])
}

/// A command line that is sent with a line end splits as it was put together.
proof fn lemma_sent(word: Seq<char>, arg: Seq<char>)
    requires
        one_word(word),
    ensures
        request_of(command_text(word, arg).push('\n')) == command(
            word,
            if words(arg).len() > 0 {
                Some(words(arg)[0])
            } else {
                None
            },
            trimmed(arg),
        ),
{
    reveal_strlit(" ");
    let line = command_text(word, arg).push('\n');
    assert(line == word.push(' ') + arg.push('\n'));
    command_splits(word, ' ', arg.push('\n'));
    trailing_white_is_ignored(arg, '\n');
    let ws = words(line);
    assert(ws[0] == word);
    if words(arg).len() > 0 {
        assert(ws[1] == words(arg)[0]);
    }
}

/// Every command word is understood as its request.
proof fn lemma_commands(arg: Option<Seq<char>>, rest: Seq<char>)
    ensures
        one_word("STATUS"@) && command("STATUS"@, arg, rest) == RequestView::Status,
        one_word("PROFILE"@) && command("PROFILE"@, arg, rest) == RequestView::Profile(
            perf_arg(arg),
        ),
        one_word("KBDSET"@) && command("KBDSET"@, arg, rest) == RequestView::KbdSet(int_arg(arg)),
        one_word("CHARGE"@) && command("CHARGE"@, arg, rest) == RequestView::Charge(arg),
        one_word("LISTPROFILES"@) && command("LISTPROFILES"@, arg, rest)
            == RequestView::ListProfiles,
        one_word("ACTIVATE"@) && (rest.len() > 0 ==> command("ACTIVATE"@, arg, rest)
            == RequestView::Activate(rest)),
        one_word("SETDEFAULT"@) && (rest.len() > 0 ==> command("SETDEFAULT"@, arg, rest)
            == RequestView::SetDefault(rest)),
        one_word("DELPROFILE"@) && (rest.len() > 0 ==> command("DELPROFILE"@, arg, rest)
            == RequestView::DelProfile(rest)),
        one_word("SAVEPROFILE"@) && command("SAVEPROFILE"@, arg, rest)
            == RequestView::SaveProfile(rest),
        one_word("IMPORTTCC"@) && (rest.len() > 0 ==> command("IMPORTTCC"@, arg, rest)
            == RequestView::ImportTcc(rest)),
        one_word("FANAUTO"@) && command("FANAUTO"@, arg, rest) == RequestView::FanAuto,
        one_word("FANMANUAL"@) && command("FANMANUAL"@, arg, rest) == RequestView::FanManual(
            int_arg(arg),
        ),
{
    reveal_strlit("STATUS");
    reveal_strlit("PROFILE");
    reveal_strlit("KBDSET");
    reveal_strlit("CHARGE");
    reveal_strlit("LISTPROFILES");
    reveal_strlit("ACTIVATE");
    reveal_strlit("SETDEFAULT");
    reveal_strlit("DELPROFILE");
    reveal_strlit("SAVEPROFILE");
    reveal_strlit("IMPORTTCC");
    reveal_strlit("FANAUTO");
    reveal_strlit("FANMANUAL");
    assert("STATUS"@[0] == 'S' && "KBDSET"@[0] == 'K' && "CHARGE"@[0] == 'C');
    assert("PROFILE"@[0] == 'P' && "FANAUTO"@[0] == 'F');
    assert("SETDEFAULT"@[0] == 'S' && "DELPROFILE"@[0] == 'D');
    assert("IMPORTTCC"@[0] == 'I' && "FANMANUAL"@[0] == 'F');
}

/// The daemon understands a profile name that the window sends, also one with spaces in it:
/// it is taken without whitespace at its ends.
pub proof fn names_are_understood(name: Seq<char>)
    requires
        trimmed(name).len() > 0,
    ensures
        request_of(command_text("ACTIVATE"@, name).push('\n')) == RequestView::Activate(
            trimmed(name),
        ),
        request_of(command_text("SETDEFAULT"@, name).push('\n')) == RequestView::SetDefault(
            trimmed(name),
        ),
        request_of(command_text("DELPROFILE"@, name).push('\n')) == RequestView::DelProfile(
            trimmed(name),
        ),
        request_of(command_text("IMPORTTCC"@, name).push('\n')) == RequestView::ImportTcc(
            trimmed(name),
        ),
{
    let arg = if words(name).len() > 0 {
        Some(words(name)[0])
    } else {
        None
    };
    lemma_commands(arg, trimmed(name));
    lemma_sent("ACTIVATE"@, name);
    lemma_sent("SETDEFAULT"@, name);
    lemma_sent("DELPROFILE"@, name);
    lemma_sent("IMPORTTCC"@, name);
}

/// The daemon is handed the profile that the window saves as it was written.
pub proof fn saves_are_understood(name: Seq<char>, perf: Seq<char>, curve: Seq<(i32, i32)>)
    ensures
        request_of(command_text("SAVEPROFILE"@, json_profile(name, perf, curve)).push('\n'))
            == RequestView::SaveProfile(json_profile(name, perf, curve)),
{
    let j = json_profile(name, perf, curve);
    reveal_strlit("{\"name\":\"");
    reveal_strlit("]}");
    assert(j[0] == '{');
    assert(j.last() == '}');
    assert(trimmed(j) == j);
    let arg = if words(j).len() > 0 {
        Some(words(j)[0])
    } else {
        None
    };
    lemma_commands(arg, j);
    lemma_sent("SAVEPROFILE"@, j);
}

/// The daemon understands a performance profile that the window sends.
pub proof fn profiles_are_understood(p: PerfProfile)
    ensures
        request_of(command_text("PROFILE"@, p.id()).push('\n')) == RequestView::Profile(Some(p)),
{
    reveal_strlit("power_save");
    reveal_strlit("enthusiast");
    reveal_strlit("overboost");
    assert(one_word(p.id()));
    command_splits(p.id(), ' ', Seq::empty());
    id_names_profile(p);
    lemma_commands(Some(p.id()), trimmed(p.id()));
    lemma_sent("PROFILE"@, p.id());
}

/// The daemon understands a charging profile that the window sends.
pub proof fn charges_are_understood(c: Seq<char>)
    requires
        charge_known(c),
    ensures
        request_of(command_text("CHARGE"@, c).push('\n')) == RequestView::Charge(Some(c)),
{
    reveal_strlit("high_capacity");
    reveal_strlit("balanced");
    reveal_strlit("stationary");
    assert(one_word(c));
    command_splits(c, ' ', Seq::empty());
    lemma_commands(Some(c), trimmed(c));
    lemma_sent("CHARGE"@, c);
}

/// The daemon understands a number that the window sends.
pub proof fn numbers_are_understood(v: i32)
    ensures
        request_of(command_text("FANMANUAL"@, dec(v as int)).push('\n'))
            == RequestView::FanManual(Some(v)),
        request_of(command_text("KBDSET"@, dec(v as int)).push('\n')) == RequestView::KbdSet(
            Some(v),
        ),
{
    let s = dec(v as int);
    let n: nat = if v < 0 {
        (-v) as nat
    } else {
        v as nat
    };
    lemma_digits_value(n, 10);
    let ds = digits(n, 10);
    assert forall|i: int| 0 <= i < s.len() implies !is_white(s[i]) by {
        if v < 0 {
            if i > 0 {
                assert(s[i] == ds[i - 1]);
                assert(digit_value(ds[i - 1]) < 10);
            }
        } else {
            assert(digit_value(ds[i]) < 10);
        }
    }
    assert(one_word(s));
    command_splits(s, ' ', Seq::empty());
    decimal_round_trip(v);
    lemma_commands(Some(s), trimmed(s));
    lemma_sent("FANMANUAL"@, s);
    lemma_sent("KBDSET"@, s);
}

/// The daemon understands the commands that have no argument.
pub proof fn questions_are_understood()
    ensures
        request_of("STATUS"@.push('\n')) == RequestView::Status,
        request_of("LISTPROFILES"@.push('\n')) == RequestView::ListProfiles,
        request_of("FANAUTO"@.push('\n')) == RequestView::FanAuto,
{
    lemma_commands(None, Seq::empty());
    lemma_bare("STATUS"@);
    lemma_bare("LISTPROFILES"@);
    lemma_bare("FANAUTO"@);
}

/// A command word that is sent with a line end is taken as it is.
proof fn lemma_bare(word: Seq<char>)
    requires
        one_word(word),
    ensures
        request_of(word.push('\n')) == command(word, None, Seq::empty()),
{
    command_splits(word, '\n', Seq::empty());
    assert(word.push('\n') + Seq::<char>::empty() == word.push('\n'));
    assert(words(Seq::<char>::empty()) == Seq::<Seq<char>>::empty());
    assert(seq![word] + Seq::<Seq<char>>::empty() == seq![word]);
    assert(trimmed(Seq::<char>::empty()) == Seq::<char>::empty());
}

/// Every performance profile is offered, under the position that its id has.
pub proof fn every_profile_is_offered(p: PerfProfile)
    ensures
        position(perf_table(), p.id()) is Some,
        perf_table()[position(perf_table(), p.id())->0].0 == p.id(),
{
    let t = perf_table();
    position_is_first(t, p.id());
    assert(t[0].0 == "power_save"@ && t[1].0 == "enthusiast"@ && t[2].0 == "overboost"@);
}

/// Every charging profile is offered, under the position that its id has.
pub proof fn every_charge_is_offered(c: Seq<char>)
    requires
        charge_known(c),
    ensures
        position(charge_table(), c) is Some,
        charge_table()[position(charge_table(), c)->0].0 == c,
{
    let t = charge_table();
    position_is_first(t, c);
    assert(t[0].0 == "stationary"@ && t[1].0 == "balanced"@ && t[2].0 == "high_capacity"@);
}

/// A sensor is shown as its temperature, then its duty in percent.
pub proof fn sensor_shows_temperature_then_duty(temp: int, fan: int)
    ensures
        sensor(temp, fan).take(dec(temp).len() as int) == dec(temp),
        sensor(temp, fan).skip(dec(temp).len() as int) == " °C  ·  fan "@ + dec(fan) + "%"@,
{
    let n = dec(temp).len() as int;
    assert(sensor(temp, fan).take(n) == dec(temp));
    assert(sensor(temp, fan).skip(n) == " °C  ·  fan "@ + dec(fan) + "%"@);
}

/// Once a change is made, what should be shown is shown; nothing is set that is shown already,
/// and nothing where nothing should be.
pub proof fn changes_show_the_new(new: int, cur: int)
    ensures
        change(Some(new), cur) is None <==> new == cur,
        new != cur ==> change(Some(new), cur) == Some(new),
        change(None, cur) is None,
{
}

/// A listed name stands where its profile does.
pub proof fn names_keep_their_order(ps: Seq<ProfileMeta>, i: int)
    requires
        0 <= i < ps.len(),
    ensures
        meta_names(ps).len() == ps.len(),
        meta_names(ps)[i] == ps[i].name@,
{
}

/// The first position of a name is one, and the only one.
pub proof fn first_position_is_unique(
    names: Seq<Seq<char>>,
    name: Seq<char>,
    i: int,
    j: int,
)
    requires
        first_at(names, name, i),
        0 <= j < names.len(),
        names[j] == name,
    ensures
        0 <= i <= j,
        i < names.len(),
        names[i] == name,
{
}

/// A command is its word, a blank and its argument.
pub proof fn command_is_word_and_argument(word: Seq<char>, arg: Seq<char>)
    ensures
        command_text(word, arg) == word.push(' ') + arg,
{
    reveal_strlit(" ");
    assert(word + " "@ + arg == word.push(' ') + arg);
}

/// The points of a curve are written one after the other, separated by commas, each as its
/// temperature and its duty in brackets.
pub proof fn points_are_listed(c: Seq<(i32, i32)>, p: (i32, i32))
    ensures
        json_points(Seq::empty()).len() == 0,
        json_points(seq![p]) == "["@ + dec(p.0 as int) + ","@ + dec(p.1 as int) + "]"@,
        c.len() > 0 ==> json_points(c.push(p)) == json_points(c) + ","@ + json_points(seq![p]),
{
    assert(seq![p].drop_last() == Seq::<(i32, i32)>::empty());
    let one = "["@ + dec(p.0 as int) + ","@ + dec(p.1 as int) + "]"@;
    assert(Seq::<char>::empty() + "["@ + dec(p.0 as int) + ","@ + dec(p.1 as int) + "]"@ == one);
    if c.len() > 0 {
        let d = c.push(p);
        assert(d.drop_last() == c);
        let before = json_points(c) + ","@;
        assert(before + "["@ + dec(p.0 as int) + ","@ + dec(p.1 as int) + "]"@ == before + one);
    }
}

/// A profile in JSON has its name, its mode and its points under their keys.
pub proof fn profile_in_json_has_every_part(
    name: Seq<char>,
    perf: Seq<char>,
    curve: Seq<(i32, i32)>,
)
    ensures
        ({
            let j = json_profile(name, perf, curve);
            let a = "{\"name\":\""@ + name;
            let b = "\",\"perf\":\""@ + perf;
            let c = "\",\"curve\":["@ + json_points(curve) + "]}"@;
            &&& j.len() == a.len() + b.len() + c.len()
            &&& j.take(a.len() as int) == a
            &&& j.skip(a.len() as int).take(b.len() as int) == b
            &&& j.skip(a.len() as int).skip(b.len() as int) == c
        }),
{
    let j = json_profile(name, perf, curve);
    let a = "{\"name\":\""@ + name;
    let b = "\",\"perf\":\""@ + perf;
    let c = "\",\"curve\":["@ + json_points(curve) + "]}"@;
    assert(j == a + b + c);
    assert((a + b + c).take(a.len() as int) == a);
    assert((a + b + c).skip(a.len() as int) == b + c);
    assert((b + c).take(b.len() as int) == b);
    assert((b + c).skip(b.len() as int) == c);
}

/// Of what was typed every character is kept, in its order, but double quotes.
pub proof fn only_quotes_are_left_out(s: Seq<char>, c: char)
    ensures
        unquoted(Seq::empty()).len() == 0,
        c != '"' ==> unquoted(s.push(c)) == unquoted(s).push(c),
        c == '"' ==> unquoted(s.push(c)) == unquoted(s),
{
    reveal(Seq::filter);
    assert(s.push(c).drop_last() == s);
}

/// Only the reply OK is one, and only a reply that begins so is one of an import.
pub proof fn replies_that_grant(s: Seq<char>)
    ensures
        granted(Some(s)) <==> s == seq!['O', 'K'],
        !granted(None),
        begins_ok(seq!['O', 'K'] + s),
        begins_ok(s) ==> s.take(2) == seq!['O', 'K'],
{
    reveal_strlit("OK");
    assert("OK"@ == seq!['O', 'K']);
    if begins_ok(s) {
        assert(s.take(2) == seq!['O', 'K']);
    }
}

/// What is offered has three entries each, from slow to fast and from low to high capacity, each
/// with its label.
pub proof fn offers_have_labels()
    ensures
        perf_table().len() == 3,
        perf_table()[0] == ("power_save"@, "Power Save"@),
        perf_table()[1] == ("enthusiast"@, "Balanced"@),
        perf_table()[2] == ("overboost"@, "Performance"@),
        charge_table().len() == 3,
        charge_table()[0] == ("stationary"@, "Stationary (~60%)"@),
        charge_table()[1] == ("balanced"@, "Balanced (~80%)"@),
        charge_table()[2] == ("high_capacity"@, "High Capacity (100%)"@),
{
}

/// The curve of a new profile rises from no duty to full duty.
pub proof fn new_curve_rises(i: int, j: int)
    requires
        0 <= i < j < new_curve().len(),
    ensures
        new_curve()[i].0 < new_curve()[j].0,
        new_curve()[i].1 <= new_curve()[j].1,
        new_curve()[0].0 == 25 && new_curve()[0].1 == 0,
        new_curve().last().0 == 90 && new_curve().last().1 == 100,
{
}

} // verus!
