//! The prober: a command line that exercises the EC interface of a board.

use crate::device::{percent, text_result, EcBackend, EcError, TuxedoIo, FAN_OWNERSHIP_BIT};
use crate::ioctl::{
    R_HWCHECK_UW, R_UW_FANSPEED, R_UW_FANSPEED2, R_UW_FANS_MIN_SPEED, R_UW_FANS_OFF_AVAILABLE,
    R_UW_FAN_TEMP, R_UW_FAN_TEMP2, R_UW_MODE, R_UW_MODEL_ID, R_UW_PROFS_AVAILABLE, W_UW_FANAUTO,
    W_UW_MODE, W_UW_PERF_PROF,
};
use crate::number::{
    dec, hex, hex_byte, parse_hex, parse_i32, parse_int, push_dec, push_hex, push_hex_byte,
};
use crate::text::{chars_of, same, text_of, texts};
use crate::tui::{module_version, version_or_empty};
use vstd::prelude::*;
use vstd::string::*;

verus! {

/// One thing to do with the EC.
#[derive(Clone, Copy, Debug, PartialEq, Eq, Structural)]
pub enum Job {
    /// Set both fans to a duty in percent.
    Fans(i32),
    /// Hand the fans back to the EC.
    Auto,
    /// Select a performance profile by its number.
    Perf(i32),
    /// Read EC RAM 0x0751.
    ModeGet,
    /// Write EC RAM 0x0751.
    ModeSet(i32),
}

/// What the command line asks for.
#[derive(Clone, Copy, Debug, PartialEq, Eq, Structural)]
pub enum Command {
    Info,
    Watch,
    Usage,
    Run(Job),
}

/// `s` without every `0x` in front.
pub open spec fn bare_hex(s: Seq<char>) -> Seq<char>
    decreases s.len(),
{
    if s.len() >= 2 && s[0] == '0' && s[1] == 'x' {
        bare_hex(s.skip(2))
    } else {
        s
    }
}

/// The decimal number in the argument of a command.
pub open spec fn number_arg(args: Seq<Seq<char>>) -> Option<int> {
    if args.len() > 2 {
        parse_int(args[2], 10)
    } else {
        None
    }
}

/// The hexadecimal number in the argument of a command.
pub open spec fn hex_arg(args: Seq<Seq<char>>) -> Option<int> {
    if args.len() > 2 {
        parse_int(bare_hex(args[2]), 16)
    } else {
        None
    }
}

/// What the arguments ask for. The first is the name of the program.
pub open spec fn command_of(args: Seq<Seq<char>>) -> Command {
    if args.len() <= 1 || args[1] == "info"@ {
        Command::Info
    } else if args[1] == "set"@ {
        match number_arg(args) {
            Some(v) => Command::Run(Job::Fans(v as i32)),
            None => Command::Usage,
        }
    } else if args[1] == "auto"@ {
        Command::Run(Job::Auto)
    } else if args[1] == "perf"@ {
        match number_arg(args) {
            Some(v) => Command::Run(Job::Perf(v as i32)),
            None => Command::Usage,
        }
    } else if args[1] == "mode-get"@ {
        Command::Run(Job::ModeGet)
    } else if args[1] == "mode-set"@ {
        match hex_arg(args) {
            Some(v) => Command::Run(Job::ModeSet(v as i32)),
            None => Command::Usage,
        }
    } else if args[1] == "watch"@ {
        Command::Watch
    } else {
        Command::Usage
    }
}

fn strip_hex(s: &str) -> (r: String)
    ensures
        r@ == bare_hex(s@),
{
    let v = chars_of(s);
    let n = v.len();
    let mut i: usize = 0;
    assert(v@.skip(0) == s@);
    while n - i >= 2 && v[i] == '0' && v[i + 1] == 'x'
        invariant
            n == v@.len(),
            i <= n,
            bare_hex(v@.skip(i as int)) == bare_hex(s@),
        decreases n - i,
    {
        assert(v@.skip(i as int).skip(2) == v@.skip(i + 2));
        i += 2;
    }
    assert(v@.skip(i as int) == v@.subrange(i as int, n as int));
    text_of(&v, i, n)
}

/// What the arguments ask for.
pub fn parse_args(args: &Vec<String>) -> (r: Command)
    ensures
        r == command_of(texts(args@)),
{
    let ghost gs = texts(args@);
    assert(gs.len() == args@.len());
    if args.len() <= 1 {
        return Command::Info;
    }
    assert(gs[1] == args@[1]@);
    let word = args[1].as_str();
    let mut number: Option<i32> = None;
    let mut bits: Option<i32> = None;
    if args.len() > 2 {
        assert(gs[2] == args@[2]@);
        number = parse_i32(args[2].as_str());
        bits = parse_hex(strip_hex(args[2].as_str()).as_str());
    }
    if same(word, "info") {
        Command::Info
    } else if same(word, "set") {
        match number {
            Some(v) => Command::Run(Job::Fans(v)),
            None => Command::Usage,
        }
    } else if same(word, "auto") {
        Command::Run(Job::Auto)
    } else if same(word, "perf") {
        match number {
            Some(v) => Command::Run(Job::Perf(v)),
            None => Command::Usage,
        }
    } else if same(word, "mode-get") {
        Command::Run(Job::ModeGet)
    } else if same(word, "mode-set") {
        match bits {
            Some(v) => Command::Run(Job::ModeSet(v)),
            None => Command::Usage,
        }
    } else if same(word, "watch") {
        Command::Watch
    } else {
        Command::Usage
    }
}

/// How the prober is used.
pub fn usage() -> (r: &'static str)
    ensures
        r@
            == "tuxedo-prober (run as root)\n\n  info             read version, mode, temps, fan duty\n  set <0-100>      set both fans to a duty %, clearing 0x40 first\n  auto             restore EC automatic fan control\n  perf <1|2|3>     set perf profile (1=powersave 2=enthusiast 3=overboost)\n  mode-get         read EC RAM 0x0751\n  mode-set <hex>   write EC RAM 0x0751 (e.g. 0x00)\n  watch            loop temps + fan duty"@,
{
    "tuxedo-prober (run as root)\n\n  info             read version, mode, temps, fan duty\n  set <0-100>      set both fans to a duty %, clearing 0x40 first\n  auto             restore EC automatic fan control\n  perf <1|2|3>     set perf profile (1=powersave 2=enthusiast 3=overboost)\n  mode-get         read EC RAM 0x0751\n  mode-set <hex>   write EC RAM 0x0751 (e.g. 0x00)\n  watch            loop temps + fan duty"
}

/// A job took the EC from one state to the next and gave a line to print or an error.
pub open spec fn performed<B: EcBackend>(
    job: Job,
    pre: TuxedoIo<B>,
    post: TuxedoIo<B>,
    r: Result<Seq<char>, EcError>,
) -> bool {
    match job {
        Job::Fans(p) => exists|a: Result<(), EcError>| #[trigger]
            pre.set_fans(p, post, a) && r == said(
                a,
                "set both fans -> "@ + dec(p as int) + "%"@,
            ),
        Job::Auto => exists|a: Result<(), EcError>| #[trigger]
            pre.called(W_UW_FANAUTO, post, a) && r == said(a, "restored EC auto fan"@),
        Job::Perf(p) => exists|a: Result<(), EcError>| #[trigger]
            pre.wrote(W_UW_PERF_PROF, p, post, a) && r == said(
                a,
                "perf profile -> "@ + dec(p as int),
            ),
        Job::ModeGet => post == pre && exists|a: Result<i32, EcError>| #[trigger]
            pre.ec().may_read(R_UW_MODE, a) && r == match a {
                Ok(m) => Ok("0x0751 = "@ + hex_byte(m)),
                Err(e) => Err(e),
            },
        Job::ModeSet(v) => exists|a: Result<(), EcError>| #[trigger]
            pre.wrote(W_UW_MODE, v, post, a) && r == said(a, "wrote 0x0751 = "@ + hex_byte(v)),
    }
}

/// A line to print where a request worked, and its error where it did not.
pub open spec fn said(a: Result<(), EcError>, s: Seq<char>) -> Result<Seq<char>, EcError> {
    match a {
        Ok(_) => Ok(s),
        Err(e) => Err(e),
    }
}

fn say(a: Result<(), EcError>, s: String) -> (r: Result<String, EcError>)
    ensures
        text_result(r) == said(a, s@),
{
    match a {
        Ok(_) => Ok(s),
        Err(e) => Err(e),
    }
}

/// Does a job. Returns the line to print, or the error of the request that failed.
pub fn perform<B: EcBackend>(job: Job, dev: &mut TuxedoIo<B>) -> (r: Result<String, EcError>)
    ensures
        performed(job, *old(dev), *final(dev), text_result(r)),
{
    match job {
        Job::Fans(p) => {
            let mut s = "set both fans -> ".to_string();
            push_dec(&mut s, p);
            s.append("%");
            let a = dev.set_fan_pct(p);
            assert(old(dev).set_fans(p, *dev, a));
            say(a, s)
        },
        Job::Auto => {
            let a = dev.restore_auto();
            assert(old(dev).called(W_UW_FANAUTO, *dev, a));
            say(a, "restored EC auto fan".to_string())
        },
        Job::Perf(p) => {
            let mut s = "perf profile -> ".to_string();
            push_dec(&mut s, p);
            let a = dev.wr(W_UW_PERF_PROF, p);
            assert(old(dev).wrote(W_UW_PERF_PROF, p, *dev, a));
            say(a, s)
        },
        Job::ModeGet => {
            let a = dev.mode();
            assert(old(dev).ec().may_read(R_UW_MODE, a));
            match a {
                Ok(m) => {
                    let mut s = "0x0751 = ".to_string();
                    push_hex_byte(&mut s, m);
                    Ok(s)
                },
                Err(e) => Err(e),
            }
        },
        Job::ModeSet(v) => {
            let mut s = "wrote 0x0751 = ".to_string();
            push_hex_byte(&mut s, v);
            let a = dev.wr(W_UW_MODE, v);
            assert(old(dev).wrote(W_UW_MODE, v, *dev, a));
            say(a, s)
        },
    }
}

/// Everything that the prober reports.
pub struct Info {
    /// Empty where it could not be read.
    pub version: String,
    pub mode: Result<i32, EcError>,
    pub uniwill: Result<i32, EcError>,
    pub model_id: Result<i32, EcError>,
    pub fans_off: Result<i32, EcError>,
    pub min_speed: Result<i32, EcError>,
    pub profs: Result<i32, EcError>,
    pub cpu_temp: Result<i32, EcError>,
    pub gpu_temp: Result<i32, EcError>,
    pub cpu_fan: Result<i32, EcError>,
    pub gpu_fan: Result<i32, EcError>,
}

/// Reads everything that the prober reports.
pub fn read_info<B: EcBackend>(dev: &TuxedoIo<B>) -> (i: Info)
    ensures
        exists|v: Result<Seq<char>, EcError>| #[trigger]
            dev.ec().may_version(v) && i.version@ == version_or_empty(v),
        dev.ec().may_read(R_UW_MODE, i.mode),
        dev.ec().may_read(R_HWCHECK_UW, i.uniwill),
        dev.ec().may_read(R_UW_MODEL_ID, i.model_id),
        dev.ec().may_read(R_UW_FANS_OFF_AVAILABLE, i.fans_off),
        dev.ec().may_read(R_UW_FANS_MIN_SPEED, i.min_speed),
        dev.ec().may_read(R_UW_PROFS_AVAILABLE, i.profs),
        dev.ec().may_read(R_UW_FAN_TEMP, i.cpu_temp),
        dev.ec().may_read(R_UW_FAN_TEMP2, i.gpu_temp),
        exists|a: Result<i32, EcError>| #[trigger]
            dev.ec().may_read(R_UW_FANSPEED, a) && i.cpu_fan == percent(a),
        exists|a: Result<i32, EcError>| #[trigger]
            dev.ec().may_read(R_UW_FANSPEED2, a) && i.gpu_fan == percent(a),
{
    Info {
        mode: dev.mode(),
        version: module_version(dev),
        uniwill: dev.rd(R_HWCHECK_UW),
        model_id: dev.model_id(),
        fans_off: dev.rd(R_UW_FANS_OFF_AVAILABLE),
        min_speed: dev.fans_min_speed(),
        profs: dev.profs_available(),
        cpu_temp: dev.cpu_temp(),
        gpu_temp: dev.gpu_temp(),
        cpu_fan: dev.cpu_fan_pct(),
        gpu_fan: dev.gpu_fan_pct(),
    }
}

/// A labelled reading in decimal.
pub open spec fn dec_line(
    label: Seq<char>,
    a: Result<i32, EcError>,
    unit: Seq<char>,
) -> Result<Seq<char>, EcError> {
    match a {
        Ok(v) => Ok(label + dec(v as int) + unit),
        Err(e) => Err(e),
    }
}

/// The lines of the report. One whose reading failed is that failure; without the EC register
/// there is no report at all.
pub open spec fn info_lines(i: Info) -> Seq<Result<Seq<char>, EcError>> {
    seq![
        match i.mode {
            Ok(_) => Ok("module version      : "@ + i.version@),
            Err(e) => Err(e),
        },
        dec_line("uniwill hardware    : "@, i.uniwill, ""@),
        match i.model_id {
            Ok(v) => Ok("model id            : "@ + hex(v)),
            Err(e) => Err(e),
        },
        match i.mode {
            Ok(m) => Ok(
                "mode reg 0x0751     : "@ + hex_byte(m) + "  (fan-ownership bit 0x40 = "@ + (if m
                    & FAN_OWNERSHIP_BIT != 0 {
                    "SET -> manual fan IGNORED"@
                } else {
                    "clear -> manual OK"@
                }) + ")"@,
            ),
            Err(e) => Err(e),
        },
        dec_line("fans-off available  : "@, i.fans_off, ""@),
        dec_line("fans min speed %    : "@, i.min_speed, ""@),
        dec_line("perf profiles avail : "@, i.profs, ""@),
        dec_line("CPU temp            : "@, i.cpu_temp, " C"@),
        dec_line("GPU temp            : "@, i.gpu_temp, " C"@),
        dec_line("CPU fan duty        : "@, i.cpu_fan, "%"@),
        dec_line("GPU fan duty        : "@, i.gpu_fan, "%"@),
    ]
}

/// What is printed of lines some of which failed: those before the first failure, each with a
/// line end.
pub open spec fn printed(lines: Seq<Result<Seq<char>, EcError>>) -> Seq<char>
    decreases lines.len(),
{
    if lines.len() == 0 {
        Seq::empty()
    } else {
        match lines[0] {
            Ok(s) => s.push('\n') + printed(lines.skip(1)),
            Err(_) => Seq::empty(),
        }
    }
}

/// The first failure among lines.
pub open spec fn first_error(lines: Seq<Result<Seq<char>, EcError>>) -> Result<(), EcError>
    decreases lines.len(),
{
    if lines.len() == 0 {
        Ok(())
    } else {
        match lines[0] {
            Ok(_) => first_error(lines.skip(1)),
            Err(e) => Err(e),
        }
    }
}

/// What lines hold.
pub open spec fn line_texts(
    lines: Seq<Result<String, EcError>>,
) -> Seq<Result<Seq<char>, EcError>> {
    lines.map_values(|l: Result<String, EcError>| text_result(l))
}

fn dec_text(label: &str, a: Result<i32, EcError>, unit: &str) -> (r: Result<String, EcError>)
    ensures
        text_result(r) == dec_line(label@, a, unit@),
{
    match a {
        Ok(v) => {
            let mut s = label.to_string();
            push_dec(&mut s, v);
            s.append(unit);
            Ok(s)
        },
        Err(e) => Err(e),
    }
}

fn info_texts(i: &Info) -> (r: Vec<Result<String, EcError>>)
    ensures
        line_texts(r@) == info_lines(*i),
{
    let version = match i.mode {
        Ok(_) => {
            let mut s = "module version      : ".to_string();
            s.append(i.version.as_str());
            Ok(s)
        },
        Err(e) => Err(e),
    };
    let model = match i.model_id {
        Ok(v) => {
            let mut s = "model id            : ".to_string();
            push_hex(&mut s, v);
            Ok(s)
        },
        Err(e) => Err(e),
    };
    let mode = match i.mode {
        Ok(m) => {
            let mut s = "mode reg 0x0751     : ".to_string();
            push_hex_byte(&mut s, m);
            s.append("  (fan-ownership bit 0x40 = ");
            if m & FAN_OWNERSHIP_BIT != 0 {
                s.append("SET -> manual fan IGNORED");
            } else {
                s.append("clear -> manual OK");
            }
            s.append(")");
            Ok(s)
        },
        Err(e) => Err(e),
    };
    let mut r: Vec<Result<String, EcError>> = Vec::new();
    r.push(version);
    r.push(dec_text("uniwill hardware    : ", i.uniwill, ""));
    r.push(model);
    r.push(mode);
    r.push(dec_text("fans-off available  : ", i.fans_off, ""));
    r.push(dec_text("fans min speed %    : ", i.min_speed, ""));
    r.push(dec_text("perf profiles avail : ", i.profs, ""));
    r.push(dec_text("CPU temp            : ", i.cpu_temp, " C"));
    r.push(dec_text("GPU temp            : ", i.gpu_temp, " C"));
    r.push(dec_text("CPU fan duty        : ", i.cpu_fan, "%"));
    r.push(dec_text("GPU fan duty        : ", i.gpu_fan, "%"));
    assert(line_texts(r@) == info_lines(*i));
    r
}

/// The report: what is printed, and the failure that cut it short.
pub fn cmd_info(i: &Info) -> (r: (String, Result<(), EcError>))
    ensures
        r.0@ == printed(info_lines(*i)),
        r.1 == first_error(info_lines(*i)),
{
    let lines = info_texts(i);
    let ghost all = info_lines(*i);
    assert(all == line_texts(lines@));
    let mut s = String::new();
    assert(all.skip(0) == all);
    for k in 0..lines.len()
        invariant
            all == line_texts(lines@),
            all == info_lines(*i),
            printed(all) == s@ + printed(all.skip(k as int)),
            first_error(all) == first_error(all.skip(k as int)),
    {
        proof {
            assert(all.skip(k as int)[0] == text_result(lines@[k as int]));
            assert(all.skip(k as int).skip(1) == all.skip(k + 1));
        }
        let ghost before = s@;
        match &lines[k] {
            Ok(t) => {
                s.append(t.as_str());
                s.push('\n');
                assert(before + (t@.push('\n') + printed(all.skip(k + 1))) == s@ + printed(
                    all.skip(k + 1),
                ));
            },
            Err(e) => {
                assert(before + Seq::<char>::empty() == before);
                return (s, Err(*e));
            },
        }
    }
    assert(all.skip(lines@.len() as int) == Seq::<Result<Seq<char>, EcError>>::empty());
    assert(s@ + Seq::<char>::empty() == s@);
    (s, Ok(()))
}

/// Everything that the watch shows.
pub struct Sensors {
    pub mode: Result<i32, EcError>,
    pub cpu_temp: Result<i32, EcError>,
    pub cpu_fan: Result<i32, EcError>,
    pub gpu_temp: Result<i32, EcError>,
    pub gpu_fan: Result<i32, EcError>,
}

/// Reads everything that the watch shows.
pub fn read_sensors<B: EcBackend>(dev: &TuxedoIo<B>) -> (i: Sensors)
    ensures
        dev.ec().may_read(R_UW_MODE, i.mode),
        dev.ec().may_read(R_UW_FAN_TEMP, i.cpu_temp),
        dev.ec().may_read(R_UW_FAN_TEMP2, i.gpu_temp),
        exists|a: Result<i32, EcError>| #[trigger]
            dev.ec().may_read(R_UW_FANSPEED, a) && i.cpu_fan == percent(a),
        exists|a: Result<i32, EcError>| #[trigger]
            dev.ec().may_read(R_UW_FANSPEED2, a) && i.gpu_fan == percent(a),
{
    Sensors {
        mode: dev.mode(),
        cpu_temp: dev.cpu_temp(),
        cpu_fan: dev.cpu_fan_pct(),
        gpu_temp: dev.gpu_temp(),
        gpu_fan: dev.gpu_fan_pct(),
    }
}

/// One line of the watch, or the first reading that failed.
pub open spec fn watch_line(i: Sensors) -> Result<Seq<char>, EcError> {
    match (i.mode, i.cpu_temp, i.cpu_fan, i.gpu_temp, i.gpu_fan) {
        (Ok(m), Ok(ct), Ok(cf), Ok(gt), Ok(gf)) => Ok(
            "cpu "@ + dec(ct as int) + "C fan "@ + dec(cf as int) + "%  | gpu "@ + dec(gt as int)
                + "C fan "@ + dec(gf as int) + "%  | 0x0751="@ + hex_byte(m) + if m
                & FAN_OWNERSHIP_BIT != 0 {
                " (EC owns fan)"@
            } else {
                ""@
            },
        ),
        (Err(e), _, _, _, _) => Err(e),
        (_, Err(e), _, _, _) => Err(e),
        (_, _, Err(e), _, _) => Err(e),
        (_, _, _, Err(e), _) => Err(e),
        (_, _, _, _, Err(e)) => Err(e),
    }
}

/// One line of the watch.
pub fn cmd_watch(i: &Sensors) -> (r: Result<String, EcError>)
    ensures
        text_result(r) == watch_line(*i),
{
    let m = match i.mode {
        Ok(v) => v,
        Err(e) => {
            return Err(e);
        },
    };
    let ct = match i.cpu_temp {
        Ok(v) => v,
        Err(e) => {
            return Err(e);
        },
    };
    let cf = match i.cpu_fan {
        Ok(v) => v,
        Err(e) => {
            return Err(e);
        },
    };
    let gt = match i.gpu_temp {
        Ok(v) => v,
        Err(e) => {
            return Err(e);
        },
    };
    let gf = match i.gpu_fan {
        Ok(v) => v,
        Err(e) => {
            return Err(e);
        },
    };
    let mut s = "cpu ".to_string();
    push_dec(&mut s, ct);
    s.append("C fan ");
    push_dec(&mut s, cf);
    s.append("%  | gpu ");
    push_dec(&mut s, gt);
    s.append("C fan ");
    push_dec(&mut s, gf);
    s.append("%  | 0x0751=");
    push_hex_byte(&mut s, m);
    if m & FAN_OWNERSHIP_BIT != 0 {
        s.append(" (EC owns fan)");
    } else {
        s.append("");
    }
    Ok(s)
}

/// Any number of `0x` in front is left out, and nothing else is.
pub proof fn hex_prefix_is_left_out(s: Seq<char>)
    ensures
        bare_hex(seq!['0', 'x'] + s) == bare_hex(s),
        s.len() < 2 || s[0] != '0' || s[1] != 'x' ==> bare_hex(s) == s,
{
    let t = seq!['0', 'x'] + s;
    assert(t.skip(2) == s);
}

/// Each word is its command, with the number behind it where it takes one: decimal for a duty
/// and a profile, hexadecimal for the register. A number that is missing or malformed, and any
/// other word, asks for help; no word at all for the report.
pub proof fn words_are_commands(args: Seq<Seq<char>>)
    ensures
        args.len() <= 1 ==> command_of(args) is Info,
        args.len() > 1 && args[1] == "info"@ ==> command_of(args) is Info,
        args.len() > 1 && args[1] == "auto"@ ==> command_of(args) == Command::Run(Job::Auto),
        args.len() > 1 && args[1] == "mode-get"@ ==> command_of(args) == Command::Run(
            Job::ModeGet,
        ),
        args.len() > 1 && args[1] == "watch"@ ==> command_of(args) is Watch,
        args.len() == 2 && (args[1] == "set"@ || args[1] == "perf"@ || args[1] == "mode-set"@)
            ==> command_of(args) is Usage,
        args.len() > 1 && args[1] != "info"@ && args[1] != "auto"@ && args[1] != "mode-get"@
            && args[1] != "watch"@ && args[1] != "set"@ && args[1] != "perf"@ && args[1]
            != "mode-set"@ ==> command_of(args) is Usage,
{
    lemma_words_differ();
}

/// A number behind a word is the one that the command takes.
pub proof fn numbers_are_taken(args: Seq<Seq<char>>, v: i32)
    requires
        args.len() > 2,
    ensures
        args[1] == "set"@ && parse_int(args[2], 10) == Some(v as int) ==> command_of(args)
            == Command::Run(Job::Fans(v)),
        args[1] == "perf"@ && parse_int(args[2], 10) == Some(v as int) ==> command_of(args)
            == Command::Run(Job::Perf(v)),
        args[1] == "mode-set"@ && parse_int(bare_hex(args[2]), 16) == Some(v as int)
            ==> command_of(args) == Command::Run(Job::ModeSet(v)),
        (args[1] == "set"@ || args[1] == "perf"@) && parse_int(args[2], 10) is None
            ==> command_of(args) is Usage,
        args[1] == "mode-set"@ && parse_int(bare_hex(args[2]), 16) is None ==> command_of(args)
            is Usage,
{
    lemma_words_differ();
}

proof fn lemma_words_differ()
    ensures
        "info"@.len() == 4 && "info"@[0] == 'i',
        "set"@.len() == 3,
        "auto"@.len() == 4 && "auto"@[0] == 'a',
        "perf"@.len() == 4 && "perf"@[0] == 'p',
        "mode-get"@.len() == 8 && "mode-get"@[5] == 'g',
        "mode-set"@.len() == 8 && "mode-set"@[5] == 's',
        "watch"@.len() == 5,
{
    reveal_strlit("info");
    reveal_strlit("set");
    reveal_strlit("auto");
    reveal_strlit("perf");
    reveal_strlit("mode-get");
    reveal_strlit("mode-set");
    reveal_strlit("watch");
}

/// A line is said exactly where the request worked; where it failed, that failure is.
pub proof fn failures_are_not_said(
    s: Seq<char>,
    label: Seq<char>,
    unit: Seq<char>,
    v: i32,
    e: EcError,
)
    ensures
        said(Ok(()), s) == Ok::<Seq<char>, EcError>(s),
        said(Err(e), s) == Err::<Seq<char>, EcError>(e),
        dec_line(label, Ok(v), unit) == Ok::<Seq<char>, EcError>(label + dec(v as int) + unit),
        dec_line(label, Err(e), unit) == Err::<Seq<char>, EcError>(e),
{
}

/// A job that gave a line made its request, and the request worked.
pub proof fn jobs_make_their_request<B: EcBackend>(
    job: Job,
    pre: TuxedoIo<B>,
    post: TuxedoIo<B>,
    r: Result<Seq<char>, EcError>,
)
    requires
        performed(job, pre, post, r),
        r is Ok,
    ensures
        job is Fans ==> pre.set_fans(job->Fans_0, post, Ok(())) && r->Ok_0 == "set both fans -> "@
            + dec(job->Fans_0 as int) + "%"@,
        job is Auto ==> pre.called(W_UW_FANAUTO, post, Ok(())) && r->Ok_0
            == "restored EC auto fan"@,
        job is Perf ==> pre.wrote(W_UW_PERF_PROF, job->Perf_0, post, Ok(())) && r->Ok_0
            == "perf profile -> "@ + dec(job->Perf_0 as int),
        job is ModeSet ==> pre.wrote(W_UW_MODE, job->ModeSet_0, post, Ok(())) && r->Ok_0
            == "wrote 0x0751 = "@ + hex_byte(job->ModeSet_0),
        job is ModeGet ==> post == pre && exists|m: i32|
            #![trigger hex_byte(m)]
            pre.ec().may_read(R_UW_MODE, Ok(m)) && r->Ok_0 == "0x0751 = "@ + hex_byte(m),
{
    match job {
        Job::Fans(p) => {
            let a = choose|a: Result<(), EcError>| #[trigger]
                pre.set_fans(p, post, a) && r == said(
                    a,
                    "set both fans -> "@ + dec(p as int) + "%"@,
                );
            if let Ok(u) = a {
                assert(u == ());
            }
        },
        Job::Auto => {
            let a = choose|a: Result<(), EcError>| #[trigger]
                pre.called(W_UW_FANAUTO, post, a) && r == said(a, "restored EC auto fan"@);
            if let Ok(u) = a {
                assert(u == ());
            }
        },
        Job::Perf(p) => {
            let a = choose|a: Result<(), EcError>| #[trigger]
                pre.wrote(W_UW_PERF_PROF, p, post, a) && r == said(
                    a,
                    "perf profile -> "@ + dec(p as int),
                );
            if let Ok(u) = a {
                assert(u == ());
            }
        },
        Job::ModeSet(v) => {
            let a = choose|a: Result<(), EcError>| #[trigger]
                pre.wrote(W_UW_MODE, v, post, a) && r == said(
                    a,
                    "wrote 0x0751 = "@ + hex_byte(v),
                );
            if let Ok(u) = a {
                assert(u == ());
            }
        },
        Job::ModeGet => {},
    }
}

/// Printing stops at the first failure, which is what is returned: every line before it is
/// printed with a line end, and nothing behind it.
pub proof fn printing_stops_at_failure(
    s: Seq<char>,
    e: EcError,
    rest: Seq<Result<Seq<char>, EcError>>,
)
    ensures
        printed(Seq::empty()).len() == 0,
        first_error(Seq::empty()) is Ok,
        printed(seq![Ok::<Seq<char>, EcError>(s)] + rest) == s.push('\n') + printed(rest),
        first_error(seq![Ok::<Seq<char>, EcError>(s)] + rest) == first_error(rest),
        printed(seq![Err::<Seq<char>, EcError>(e)] + rest).len() == 0,
        first_error(seq![Err::<Seq<char>, EcError>(e)] + rest) == Err::<(), EcError>(e),
{
    let a = seq![Ok::<Seq<char>, EcError>(s)] + rest;
    assert(a[0] == Ok::<Seq<char>, EcError>(s));
    assert(a.skip(1) == rest);
    let b = seq![Err::<Seq<char>, EcError>(e)] + rest;
    assert(b[0] == Err::<Seq<char>, EcError>(e));
}

/// The report has a line for every reading, with the value behind the label, and each line fails
/// with its own reading.
pub proof fn report_shows_every_reading(i: Info)
    ensures
        ({
            let r = info_lines(i);
            &&& r.len() == 11
            &&& i.mode is Ok ==> r[0] == Ok::<Seq<char>, EcError>(
                "module version      : "@ + i.version@,
            )
            &&& i.mode is Err ==> r[0] == Err::<Seq<char>, EcError>(i.mode->Err_0)
            &&& r[1] == dec_line("uniwill hardware    : "@, i.uniwill, ""@)
            &&& i.model_id is Ok ==> r[2] == Ok::<Seq<char>, EcError>(
                "model id            : "@ + hex(i.model_id->Ok_0),
            )
            &&& i.model_id is Err ==> r[2] == Err::<Seq<char>, EcError>(i.model_id->Err_0)
            &&& i.mode is Err ==> r[3] == Err::<Seq<char>, EcError>(i.mode->Err_0)
            &&& i.mode is Ok && i.mode->Ok_0 & 0x40 != 0 ==> r[3] == Ok::<Seq<char>, EcError>(
                "mode reg 0x0751     : "@ + hex_byte(i.mode->Ok_0)
                    + "  (fan-ownership bit 0x40 = "@ + "SET -> manual fan IGNORED"@ + ")"@,
            )
            &&& i.mode is Ok && i.mode->Ok_0 & 0x40 == 0 ==> r[3] == Ok::<Seq<char>, EcError>(
                "mode reg 0x0751     : "@ + hex_byte(i.mode->Ok_0)
                    + "  (fan-ownership bit 0x40 = "@ + "clear -> manual OK"@ + ")"@,
            )
            &&& r[4] == dec_line("fans-off available  : "@, i.fans_off, ""@)
            &&& r[5] == dec_line("fans min speed %    : "@, i.min_speed, ""@)
            &&& r[6] == dec_line("perf profiles avail : "@, i.profs, ""@)
            &&& r[7] == dec_line("CPU temp            : "@, i.cpu_temp, " C"@)
            &&& r[8] == dec_line("GPU temp            : "@, i.gpu_temp, " C"@)
            &&& r[9] == dec_line("CPU fan duty        : "@, i.cpu_fan, "%"@)
            &&& r[10] == dec_line("GPU fan duty        : "@, i.gpu_fan, "%"@)
        }),
{
}

/// A line of the watch needs every reading, and fails with the first that failed. It shows the
/// CPU before the GPU, and tells when the EC owns the fans.
pub proof fn watch_shows_every_reading(i: Sensors)
    ensures
        ({
            let all = i.mode is Ok && i.cpu_temp is Ok && i.cpu_fan is Ok && i.gpu_temp is Ok
                && i.gpu_fan is Ok;
            let values = "cpu "@ + dec(i.cpu_temp->Ok_0 as int) + "C fan "@ + dec(
                i.cpu_fan->Ok_0 as int,
            ) + "%  | gpu "@ + dec(i.gpu_temp->Ok_0 as int) + "C fan "@ + dec(
                i.gpu_fan->Ok_0 as int,
            ) + "%  | 0x0751="@ + hex_byte(i.mode->Ok_0);
            &&& watch_line(i) is Ok <==> all
            &&& all && i.mode->Ok_0 & 0x40 == 0 ==> watch_line(i)->Ok_0 == values
            &&& all && i.mode->Ok_0 & 0x40 != 0 ==> watch_line(i)->Ok_0 == values
                + " (EC owns fan)"@
        }),
        i.mode is Err ==> watch_line(i) == Err::<Seq<char>, EcError>(i.mode->Err_0),
        i.mode is Ok && i.cpu_temp is Err ==> watch_line(i) == Err::<Seq<char>, EcError>(
            i.cpu_temp->Err_0,
        ),
        i.mode is Ok && i.cpu_temp is Ok && i.cpu_fan is Err ==> watch_line(i) == Err::<
            Seq<char>,
            EcError,
        >(i.cpu_fan->Err_0),
        i.mode is Ok && i.cpu_temp is Ok && i.cpu_fan is Ok && i.gpu_temp is Err ==> watch_line(i)
            == Err::<Seq<char>, EcError>(i.gpu_temp->Err_0),
        i.mode is Ok && i.cpu_temp is Ok && i.cpu_fan is Ok && i.gpu_temp is Ok && i.gpu_fan is Err
            ==> watch_line(i) == Err::<Seq<char>, EcError>(i.gpu_fan->Err_0),
{
    reveal_strlit("");
    if watch_line(i) is Ok {
        let values = "cpu "@ + dec(i.cpu_temp->Ok_0 as int) + "C fan "@ + dec(
            i.cpu_fan->Ok_0 as int,
        ) + "%  | gpu "@ + dec(i.gpu_temp->Ok_0 as int) + "C fan "@ + dec(i.gpu_fan->Ok_0 as int)
            + "%  | 0x0751="@ + hex_byte(i.mode->Ok_0);
        assert(values + ""@ == values);
    }
}

/// The texts of lines stand where the lines do.
pub proof fn lines_keep_their_order(lines: Seq<Result<String, EcError>>, i: int)
    requires
        0 <= i < lines.len(),
    ensures
        line_texts(lines).len() == lines.len(),
        lines[i] is Ok ==> line_texts(lines)[i] == Ok::<Seq<char>, EcError>(lines[i]->Ok_0@),
        lines[i] is Err ==> line_texts(lines)[i] == Err::<Seq<char>, EcError>(lines[i]->Err_0),
{
}

} // verus!
