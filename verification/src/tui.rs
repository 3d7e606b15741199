//! The terminal dashboard: what it shows and what its keys do.

use crate::control::{duty_reading, reading, value_or};
use crate::device::{
    read_only_keeps_ec, read_only_keeps_fans, text_result, EcBackend, EcError, TuxedoIo,
    FAN_OWNERSHIP_BIT,
};
use crate::ioctl::{
    R_UW_FANSPEED, R_UW_FANSPEED2, R_UW_FAN_TEMP, R_UW_FAN_TEMP2, R_UW_MODE, W_UW_FANAUTO,
    W_UW_PERF_PROF,
};
use crate::number::{dec, hex_byte, push_dec, push_hex_byte, push_right3, right3};
use crate::perf::PerfProfile;
use crate::scale::clamped;
use vstd::prelude::*;
use vstd::string::*;

verus! {

/// What the dashboard shows. Readings that failed are -1, and a version that failed is empty.
pub struct Panel {
    pub version: String,
    pub cpu_temp: i32,
    pub cpu_fan: i32,
    pub gpu_temp: i32,
    pub gpu_fan: i32,
    /// EC RAM 0x0751.
    pub mode: i32,
}

/// A version, or nothing where it could not be read.
pub open spec fn version_or_empty(v: Result<Seq<char>, EcError>) -> Seq<char> {
    match v {
        Ok(s) => s,
        Err(_) => Seq::empty(),
    }
}

/// The version of the kernel module; empty where it cannot be read.
pub fn module_version<B: EcBackend>(dev: &TuxedoIo<B>) -> (r: String)
    ensures
        exists|v: Result<Seq<char>, EcError>| #[trigger]
            dev.ec().may_version(v) && r@ == version_or_empty(v),
{
    let v = dev.version();
    assert(dev.ec().may_version(text_result(v)));
    match v {
        Ok(s) => s,
        Err(_) => String::new(),
    }
}

/// Reads everything that the dashboard shows.
pub fn read_panel<B: EcBackend>(dev: &TuxedoIo<B>) -> (p: Panel)
    ensures
        exists|v: Result<Seq<char>, EcError>| #[trigger]
            dev.ec().may_version(v) && p.version@ == version_or_empty(v),
        reading(dev.ec(), R_UW_FAN_TEMP, (-1) as i32, p.cpu_temp),
        duty_reading(dev.ec(), R_UW_FANSPEED, (-1) as i32, p.cpu_fan),
        reading(dev.ec(), R_UW_FAN_TEMP2, (-1) as i32, p.gpu_temp),
        duty_reading(dev.ec(), R_UW_FANSPEED2, (-1) as i32, p.gpu_fan),
        reading(dev.ec(), R_UW_MODE, (-1) as i32, p.mode),
{
    Panel {
        mode: value_or(dev.mode(), -1),
        version: module_version(dev),
        cpu_temp: value_or(dev.cpu_temp(), -1),
        cpu_fan: value_or(dev.cpu_fan_pct(), -1),
        gpu_temp: value_or(dev.gpu_temp(), -1),
        gpu_fan: value_or(dev.gpu_fan_pct(), -1),
    }
}

/// A temperature and a duty, in columns.
pub open spec fn sensor_row(label: Seq<char>, temp: int, fan: int) -> Seq<char> {
    label + right3(dec(temp)) + " C     fan "@ + right3(dec(fan)) + "%"@
}

/// The EC register, and who owns the fans.
pub open spec fn mode_row(mode: i32) -> Seq<char> {
    "mode 0x0751 = "@ + hex_byte(mode) + "   "@ + if mode & FAN_OWNERSHIP_BIT != 0 {
        "EC owns fan (manual ignored)"@
    } else {
        "manual control OK"@
    }
}

/// The override that the dashboard has set.
pub open spec fn manual_row(manual: Option<i32>) -> Seq<char> {
    match manual {
        Some(p) => "manual fan override: "@ + dec(p as int) + "%"@,
        None => "manual fan override: "@ + "none"@,
    }
}

/// The rows of the screen, each with its line number.
pub open spec fn screen(p: Panel, manual: Option<i32>) -> Seq<(u16, Seq<char>)> {
    seq![
        (0u16, "── TUXEDO control  (tuxedo_io "@ + p.version@ + ") ──"@),
        (2u16, sensor_row("CPU temp   "@, p.cpu_temp as int, p.cpu_fan as int)),
        (3u16, sensor_row("GPU temp   "@, p.gpu_temp as int, p.gpu_fan as int)),
        (5u16, mode_row(p.mode)),
        (6u16, manual_row(manual)),
        (8u16, "q quit   a auto   1 powersave  2 enthusiast  3 overboost   +/- fan ±5%"@),
    ]
}

/// What numbered rows hold.
pub open spec fn row_texts(rows: Seq<(u16, String)>) -> Seq<(u16, Seq<char>)> {
    rows.map_values(|r: (u16, String)| (r.0, r.1@))
}

fn sensor_line(label: &str, temp: i32, fan: i32) -> (s: String)
    ensures
        s@ == sensor_row(label@, temp as int, fan as int),
{
    let mut s = label.to_string();
    push_right3(&mut s, temp);
    s.append(" C     fan ");
    push_right3(&mut s, fan);
    s.append("%");
    s
}

/// The rows of the screen.
pub fn draw(p: &Panel, manual: Option<i32>) -> (r: Vec<(u16, String)>)
    ensures
        row_texts(r@) == screen(*p, manual),
{
    let mut title = "── TUXEDO control  (tuxedo_io ".to_string();
    title.append(p.version.as_str());
    title.append(") ──");
    let mut mode = "mode 0x0751 = ".to_string();
    push_hex_byte(&mut mode, p.mode);
    mode.append("   ");
    if p.mode & FAN_OWNERSHIP_BIT != 0 {
        mode.append("EC owns fan (manual ignored)");
    } else {
        mode.append("manual control OK");
    }
    let mut over = "manual fan override: ".to_string();
    match manual {
        Some(v) => {
            push_dec(&mut over, v);
            over.append("%");
        },
        None => {
            over.append("none");
        },
    }
    let help = "q quit   a auto   1 powersave  2 enthusiast  3 overboost   +/- fan ±5%";
    let mut r: Vec<(u16, String)> = Vec::new();
    r.push((0, title));
    r.push((2, sensor_line("CPU temp   ", p.cpu_temp, p.cpu_fan)));
    r.push((3, sensor_line("GPU temp   ", p.gpu_temp, p.gpu_fan)));
    r.push((5, mode));
    r.push((6, over));
    r.push((8, help.to_string()));
    assert(row_texts(r@) == screen(*p, manual));
    r
}

/// A key that was pressed.
#[derive(Clone, Copy, Debug, PartialEq, Eq, Structural)]
pub enum Key {
    Char(char),
    Esc,
    Other,
}

/// What a key asks for.
#[derive(Clone, Copy, Debug, PartialEq, Eq, Structural)]
pub enum Act {
    Quit,
    /// Hand the fans back to the EC.
    Auto,
    Perf(PerfProfile),
    /// Change the duty by so many percent points.
    Nudge(i32),
    Ignore,
}

/// What a key asks for.
pub open spec fn act_of(k: Key) -> Act {
    match k {
        Key::Esc => Act::Quit,
        Key::Other => Act::Ignore,
        Key::Char(c) => if c == 'q' {
            Act::Quit
        } else if c == 'a' {
            Act::Auto
        } else if c == '1' {
            Act::Perf(PerfProfile::PowerSave)
        } else if c == '2' {
            Act::Perf(PerfProfile::Enthusiast)
        } else if c == '3' {
            Act::Perf(PerfProfile::Overboost)
        } else if c == '+' || c == '=' {
            Act::Nudge(5)
        } else if c == '-' {
            Act::Nudge((-5) as i32)
        } else {
            Act::Ignore
        },
    }
}

/// What a key asks for.
pub fn read_key(k: Key) -> (r: Act)
    ensures
        r == act_of(k),
{
    match k {
        Key::Esc => Act::Quit,
        Key::Other => Act::Ignore,
        Key::Char(c) => if c == 'q' {
            Act::Quit
        } else if c == 'a' {
            Act::Auto
        } else if c == '1' {
            Act::Perf(PerfProfile::PowerSave)
        } else if c == '2' {
            Act::Perf(PerfProfile::Enthusiast)
        } else if c == '3' {
            Act::Perf(PerfProfile::Overboost)
        } else if c == '+' || c == '=' {
            Act::Nudge(5)
        } else if c == '-' {
            Act::Nudge(-5)
        } else {
            Act::Ignore
        },
    }
}

/// The duty after a nudge of `by`, from the override or else from what the fan runs at.
pub open spec fn nudged(manual: Option<i32>, fan: i32, by: i32) -> int {
    clamped(
        match manual {
            Some(m) => m as int,
            None => fan as int,
        } + by,
        0,
        100,
    )
}

/// The duty after a nudge.
pub fn nudge(manual: Option<i32>, fan: i32, by: i32) -> (r: i32)
    ensures
        r == nudged(manual, fan, by),
{
    let base = match manual {
        Some(m) => m,
        None => fan,
    };
    let v: i64 = base as i64 + by as i64;
    if v < 0 {
        0
    } else if v > 100 {
        100
    } else {
        v as i32
    }
}

/// An act took the EC and the override from one state to the next. What the EC answers is not
/// looked at.
pub open spec fn acted<B: EcBackend>(
    a: Act,
    pre: TuxedoIo<B>,
    manual: Option<i32>,
    post: TuxedoIo<B>,
    next: Option<i32>,
) -> bool {
    match a {
        Act::Quit => post == pre && next == manual,
        Act::Ignore => post == pre && next == manual,
        Act::Auto => next is None && exists|r: Result<(), EcError>| #[trigger]
            pre.called(W_UW_FANAUTO, post, r),
        Act::Perf(p) => next == manual && exists|r: Result<(), EcError>| #[trigger]
            pre.wrote(W_UW_PERF_PROF, p.number(), post, r),
        Act::Nudge(by) => next is Some && exists|fan: i32| #[trigger]
            duty_reading(pre.ec(), R_UW_FANSPEED, 0, fan) && next->0 == nudged(manual, fan, by)
                && exists|r: Result<(), EcError>| #[trigger] pre.set_fans(next->0, post, r),
    }
}

/// Does what a key asks for. Returns whether to quit.
pub fn press<B: EcBackend>(k: Key, dev: &mut TuxedoIo<B>, manual: &mut Option<i32>) -> (quit: bool)
    ensures
        quit == (act_of(k) == Act::Quit),
        acted(act_of(k), *old(dev), *old(manual), *final(dev), *final(manual)),
{
    match read_key(k) {
        Act::Quit => true,
        Act::Ignore => false,
        Act::Auto => {
            let r = dev.restore_auto();
            assert(old(dev).called(W_UW_FANAUTO, *dev, r));
            *manual = None;
            false
        },
        Act::Perf(p) => {
            let r = dev.set_perf(p);
            assert(old(dev).wrote(W_UW_PERF_PROF, p.number(), *dev, r));
            false
        },
        Act::Nudge(by) => {
            let fan = value_or(dev.cpu_fan_pct(), 0);
            assert(duty_reading(old(dev).ec(), R_UW_FANSPEED, 0, fan));
            let p = nudge(*manual, fan, by);
            let r = dev.set_fan_pct(p);
            assert(old(dev).set_fans(p, *dev, r));
            *manual = Some(p);
            false
        },
    }
}

/// No key sets an override outside 0 to 100 percent.
pub proof fn override_stays_in_range<B: EcBackend>(
    a: Act,
    pre: TuxedoIo<B>,
    manual: Option<i32>,
    post: TuxedoIo<B>,
    next: Option<i32>,
)
    requires
        acted(a, pre, manual, post, next),
        manual is Some ==> 0 <= manual->0 <= 100,
    ensures
        next is Some ==> 0 <= next->0 <= 100,
{
}

/// Away from the ends, a nudge down undoes a nudge up.
pub proof fn nudges_cancel(m: i32, fan: i32)
    requires
        0 <= m <= 95,
    ensures
        nudged(Some(nudged(Some(m), fan, 5) as i32), fan, (-5) as i32) == m,
{
}

/// No key reaches the EC of a read-only board.
pub proof fn keys_keep_read_only<B: EcBackend>(
    a: Act,
    pre: TuxedoIo<B>,
    manual: Option<i32>,
    post: TuxedoIo<B>,
    next: Option<i32>,
)
    requires
        !pre.writable(),
        acted(a, pre, manual, post, next),
    ensures
        post == pre,
{
    match a {
        Act::Auto => {
            let r = choose|r: Result<(), EcError>| #[trigger] pre.called(W_UW_FANAUTO, post, r);
            read_only_keeps_ec(pre, W_UW_FANAUTO, 0, post, r);
        },
        Act::Perf(p) => {
            let r = choose|r: Result<(), EcError>| #[trigger]
                pre.wrote(W_UW_PERF_PROF, p.number(), post, r);
            read_only_keeps_ec(pre, W_UW_PERF_PROF, p.number(), post, r);
        },
        Act::Nudge(_) => {
            let r = choose|r: Result<(), EcError>| #[trigger] pre.set_fans(next->0, post, r);
            read_only_keeps_fans(pre, next->0, post, r);
        },
        _ => {},
    }
}

/// Each key has its act, and every other key is ignored.
pub proof fn keys_have_acts(c: char)
    ensures
        act_of(Key::Esc) is Quit,
        act_of(Key::Other) is Ignore,
        act_of(Key::Char(c)) is Quit <==> c == 'q',
        act_of(Key::Char(c)) is Auto <==> c == 'a',
        act_of(Key::Char(c)) == Act::Perf(PerfProfile::PowerSave) <==> c == '1',
        act_of(Key::Char(c)) == Act::Perf(PerfProfile::Enthusiast) <==> c == '2',
        act_of(Key::Char(c)) == Act::Perf(PerfProfile::Overboost) <==> c == '3',
        act_of(Key::Char(c)) == Act::Nudge(5) <==> c == '+' || c == '=',
        act_of(Key::Char(c)) == Act::Nudge((-5) as i32) <==> c == '-',
        act_of(Key::Char(c)) is Nudge <==> c == '+' || c == '=' || c == '-',
        act_of(Key::Char(c)) is Perf <==> c == '1' || c == '2' || c == '3',
{
}

/// A nudge moves the override by so many points, or what the fan runs at where there is none,
/// and stops at the ends of 0 to 100 percent.
pub proof fn nudge_moves_by(m: i32, fan: i32, by: i32)
    ensures
        0 <= m + by <= 100 ==> nudged(Some(m), fan, by) == m + by,
        m + by < 0 ==> nudged(Some(m), fan, by) == 0,
        m + by > 100 ==> nudged(Some(m), fan, by) == 100,
        0 <= fan + by <= 100 ==> nudged(None, fan, by) == fan + by,
        fan + by < 0 ==> nudged(None, fan, by) == 0,
        fan + by > 100 ==> nudged(None, fan, by) == 100,
{
}

/// An act on the EC changes the override only where it concerns the fans: a nudge sets it and
/// drives both fans to it, handing back ends it, and every other act keeps it.
pub proof fn acts_concern_what_they_say<B: EcBackend>(
    a: Act,
    pre: TuxedoIo<B>,
    manual: Option<i32>,
    post: TuxedoIo<B>,
    next: Option<i32>,
)
    requires
        acted(a, pre, manual, post, next),
    ensures
        a is Quit || a is Ignore ==> post == pre && next == manual,
        a is Auto ==> next is None && exists|r: Result<(), EcError>| #[trigger]
            pre.called(W_UW_FANAUTO, post, r),
        a is Perf ==> next == manual,
        a == Act::Perf(PerfProfile::PowerSave) ==> exists|r: Result<(), EcError>| #[trigger]
            pre.wrote(W_UW_PERF_PROF, 1, post, r),
        a == Act::Perf(PerfProfile::Enthusiast) ==> exists|r: Result<(), EcError>| #[trigger]
            pre.wrote(W_UW_PERF_PROF, 2, post, r),
        a == Act::Perf(PerfProfile::Overboost) ==> exists|r: Result<(), EcError>| #[trigger]
            pre.wrote(W_UW_PERF_PROF, 3, post, r),
        a is Nudge ==> next is Some && exists|r: Result<(), EcError>| #[trigger]
            pre.set_fans(next->0, post, r),
        a is Nudge && manual is Some && 0 <= manual->0 + a->Nudge_0 <= 100 ==> next->0 == manual->0
            + a->Nudge_0,
{
}

/// A version that could not be read is shown as nothing.
pub proof fn version_is_shown(s: Seq<char>, e: EcError)
    ensures
        version_or_empty(Ok(s)) == s,
        version_or_empty(Err(e)).len() == 0,
{
}

/// The columns of a sensor row stand where they do whatever the readings: behind the label the
/// temperature, and behind its unit the duty.
pub proof fn sensor_row_has_columns(label: Seq<char>, temp: int, fan: int)
    ensures
        ({
            let r = sensor_row(label, temp, fan);
            let n = label.len() as int;
            let t = right3(dec(temp));
            let f = right3(dec(fan));
            &&& r.take(n) == label
            &&& r.subrange(n, n + t.len()) == t
            &&& r.subrange(n + t.len(), n + t.len() + 11) == " C     fan "@
            &&& r.subrange(n + t.len() + 11, n + t.len() + 11 + f.len()) == f
            &&& r.len() == n + t.len() + f.len() + 12
            &&& r.last() == '%'
        }),
{
    reveal_strlit(" C     fan ");
    reveal_strlit("%");
    let r = sensor_row(label, temp, fan);
    let n = label.len() as int;
    let t = right3(dec(temp));
    let f = right3(dec(fan));
    assert(" C     fan "@.len() == 11);
    assert(r.take(n) == label);
    assert(r.subrange(n, n + t.len()) == t);
    assert(r.subrange(n + t.len(), n + t.len() + 11) == " C     fan "@);
    assert(r.subrange(n + t.len() + 11, n + t.len() + 11 + f.len()) == f);
}

/// The register is shown behind its name, and the owner of the fans goes by the bit 0x40.
pub proof fn mode_row_tells_owner(mode: i32)
    ensures
        mode & 0x40 != 0 ==> mode_row(mode) == "mode 0x0751 = "@ + hex_byte(mode) + "   "@
            + "EC owns fan (manual ignored)"@,
        mode & 0x40 == 0 ==> mode_row(mode) == "mode 0x0751 = "@ + hex_byte(mode) + "   "@
            + "manual control OK"@,
{
}

/// The override is shown in percent, or as none.
pub proof fn manual_row_tells_override(v: i32)
    ensures
        manual_row(Some(v)) == "manual fan override: "@ + dec(v as int) + "%"@,
        manual_row(None) == "manual fan override: "@ + "none"@,
{
}

/// The screen shows the CPU above the GPU, then the register and the override, each on its own
/// line below the title and above the keys.
pub proof fn screen_has_rows(p: Panel, manual: Option<i32>)
    ensures
        ({
            let r = screen(p, manual);
            &&& r.len() == 6
            &&& r[0].0 == 0 && r[1].0 == 2 && r[2].0 == 3 && r[3].0 == 5 && r[4].0 == 6 && r[5].0
                == 8
            &&& r[1].1 == sensor_row("CPU temp   "@, p.cpu_temp as int, p.cpu_fan as int)
            &&& r[2].1 == sensor_row("GPU temp   "@, p.gpu_temp as int, p.gpu_fan as int)
            &&& r[3].1 == mode_row(p.mode)
            &&& r[4].1 == manual_row(manual)
        }),
{
}

/// The texts of rows stand where the rows do, with their line numbers.
pub proof fn rows_keep_their_order(rows: Seq<(u16, String)>, i: int)
    requires
        0 <= i < rows.len(),
    ensures
        row_texts(rows).len() == rows.len(),
        row_texts(rows)[i].0 == rows[i].0,
        row_texts(rows)[i].1 == rows[i].1@,
{
}

} // verus!
