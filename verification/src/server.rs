//! The socket protocol: one request line, one reply line.
//!
//! A request is answered in steps. [`begin`] does what needs no file and says what is to be
//! done next; where that gives a result, [`resume`] takes it and says what follows, until there
//! is a reply to send.

use crate::device::{EcBackend, TuxedoIo};
use crate::number::{
    dec, decimal_count, digit_value, digits, lemma_digits_value, parse_i32, parse_int,
};
use crate::perf::{perf_named, PerfProfile};
use crate::profiles::{
    builtin_name, four_names_are_built_in, has_builtins, import_tcc, importing_keeps_builtins,
    importing_keeps_unique, is_builtin, lookup, opt_text, profiles_are_put_in_turn,
    removed_is_gone, removing_keeps_builtins, removing_keeps_unique, removing_leaves_the_others,
    saved_is_found, saved_stands_last, saving_keeps_builtins, saving_keeps_unique, tcc_profiles,
    unique_names, views, with_profile, with_profiles, without, Profile, ProfileView, Store,
    StoreView, TccProfile,
};
use crate::scale::{clamp, clamped};
use crate::shared::{
    apply_profile, json_bool, json_opt, perf_sent, status_text, FileWrite, Peripherals,
    PeripheralsView, Shared, SharedView,
};
use crate::sysfs::{charge_known, chg_valid};
use crate::text::{
    after_word, command_splits, is_white, rest_of, same, split_words, texts, trimmed, words,
};
use vstd::prelude::*;
use vstd::string::*;

verus! {

/// A request line, understood.
pub enum Request {
    Status,
    /// Selects a performance profile; none where it is not a known one.
    Profile(Option<PerfProfile>),
    /// Sets the keyboard brightness; none where it is not a number.
    KbdSet(Option<i32>),
    /// Sets the charging profile; none where it is missing.
    Charge(Option<String>),
    ListProfiles,
    Activate(String),
    SetDefault(String),
    DelProfile(String),
    /// Saves the profile that a JSON text describes.
    SaveProfile(String),
    /// Imports the profiles of an export file.
    ImportTcc(String),
    FanAuto,
    /// Holds a duty; none where it is not a number.
    FanManual(Option<i32>),
    Unknown,
}

/// What a [`Request`] holds.
#[verifier::ext_equal]
pub enum RequestView {
    Status,
    Profile(Option<PerfProfile>),
    KbdSet(Option<i32>),
    Charge(Option<Seq<char>>),
    ListProfiles,
    Activate(Seq<char>),
    SetDefault(Seq<char>),
    DelProfile(Seq<char>),
    SaveProfile(Seq<char>),
    ImportTcc(Seq<char>),
    FanAuto,
    FanManual(Option<i32>),
    Unknown,
}

impl View for Request {
    type V = RequestView;

    open spec fn view(&self) -> RequestView {
        match *self {
            Request::Status => RequestView::Status,
            Request::Profile(p) => RequestView::Profile(p),
            Request::KbdSet(v) => RequestView::KbdSet(v),
            Request::Charge(c) => RequestView::Charge(opt_text(c)),
            Request::ListProfiles => RequestView::ListProfiles,
            Request::Activate(n) => RequestView::Activate(n@),
            Request::SetDefault(n) => RequestView::SetDefault(n@),
            Request::DelProfile(n) => RequestView::DelProfile(n@),
            Request::SaveProfile(j) => RequestView::SaveProfile(j@),
            Request::ImportTcc(p) => RequestView::ImportTcc(p@),
            Request::FanAuto => RequestView::FanAuto,
            Request::FanManual(v) => RequestView::FanManual(v),
            Request::Unknown => RequestView::Unknown,
        }
    }
}

/// The performance profile that a word names.
pub open spec fn perf_arg(w: Option<Seq<char>>) -> Option<PerfProfile> {
    match w {
        Some(w) => perf_named(w),
        None => None,
    }
}

/// The integer that a word writes.
pub open spec fn int_arg(w: Option<Seq<char>>) -> Option<i32> {
    match w {
        Some(w) => match parse_int(w, 10) {
            Some(v) => Some(v as i32),
            None => None,
        },
        None => None,
    }
}

/// The request of a command word, its first argument word, and the rest of the line. Names
/// may hold spaces: they are the rest of the line.
pub open spec fn command(word: Seq<char>, arg: Option<Seq<char>>, rest: Seq<char>) -> RequestView {
    if word == "STATUS"@ {
        RequestView::Status
    } else if word == "PROFILE"@ {
        RequestView::Profile(perf_arg(arg))
    } else if word == "KBDSET"@ {
        RequestView::KbdSet(int_arg(arg))
    } else if word == "CHARGE"@ {
        RequestView::Charge(arg)
    } else if word == "LISTPROFILES"@ {
        RequestView::ListProfiles
    } else if word == "ACTIVATE"@ && rest.len() > 0 {
        RequestView::Activate(rest)
    } else if word == "SETDEFAULT"@ && rest.len() > 0 {
        RequestView::SetDefault(rest)
    } else if word == "DELPROFILE"@ && rest.len() > 0 {
        RequestView::DelProfile(rest)
    } else if word == "SAVEPROFILE"@ {
        RequestView::SaveProfile(rest)
    } else if word == "IMPORTTCC"@ && rest.len() > 0 {
        RequestView::ImportTcc(rest)
    } else if word == "FANAUTO"@ {
        RequestView::FanAuto
    } else if word == "FANMANUAL"@ {
        RequestView::FanManual(int_arg(arg))
    } else {
        RequestView::Unknown
    }
}

/// The request of a line.
pub open spec fn request_of(line: Seq<char>) -> RequestView {
    let ws = words(line);
    if ws.len() == 0 {
        RequestView::Unknown
    } else {
        command(
            ws[0],
            if ws.len() > 1 {
                Some(ws[1])
            } else {
                None
            },
            after_word(line),
        )
    }
}

fn perf_word(w: Option<&String>) -> (r: Option<PerfProfile>)
    ensures
        r == perf_arg(
            match w {
                Some(w) => Some(w@),
                None => None,
            },
        ),
{
    match w {
        Some(w) => PerfProfile::from_name(w.as_str()),
        None => None,
    }
}

fn int_word(w: Option<&String>) -> (r: Option<i32>)
    ensures
        r == int_arg(
            match w {
                Some(w) => Some(w@),
                None => None,
            },
        ),
{
    match w {
        Some(w) => parse_i32(w.as_str()),
        None => None,
    }
}

/// Understands a request line.
pub fn parse(line: &str) -> (r: Request)
    ensures
        r@ == request_of(line@),
{
    let ws = split_words(line);
    let rest = rest_of(line);
    let ghost gs = texts(ws@);
    assert(gs.len() == ws@.len());
    if ws.len() == 0 {
        return Request::Unknown;
    }
    assert(gs[0] == ws@[0]@);
    let arg: Option<&String> = if ws.len() > 1 {
        assert(gs[1] == ws@[1]@);
        Some(&ws[1])
    } else {
        None
    };
    let named = rest.as_str().unicode_len() > 0;
    let word = ws[0].as_str();
    if same(word, "STATUS") {
        Request::Status
    } else if same(word, "PROFILE") {
        Request::Profile(perf_word(arg))
    } else if same(word, "KBDSET") {
        Request::KbdSet(int_word(arg))
    } else if same(word, "CHARGE") {
        Request::Charge(
            match arg {
                Some(w) => Some(w.clone()),
                None => None,
            },
        )
    } else if same(word, "LISTPROFILES") {
        Request::ListProfiles
    } else if same(word, "ACTIVATE") && named {
        Request::Activate(rest)
    } else if same(word, "SETDEFAULT") && named {
        Request::SetDefault(rest)
    } else if same(word, "DELPROFILE") && named {
        Request::DelProfile(rest)
    } else if same(word, "SAVEPROFILE") {
        Request::SaveProfile(rest)
    } else if same(word, "IMPORTTCC") && named {
        Request::ImportTcc(rest)
    } else if same(word, "FANAUTO") {
        Request::FanAuto
    } else if same(word, "FANMANUAL") {
        Request::FanManual(int_word(arg))
    } else {
        Request::Unknown
    }
}

/// What is to be done next.
pub enum Step {
    /// Send this line.
    Reply(String),
    /// Write the store, whether or not that works, then send this line.
    Save(String),
    /// Write a keyboard brightness, then go on with [`Event::KbdWritten`].
    WriteKbd(FileWrite, i32),
    /// Write a charging profile, then go on with [`Event::ChargeWritten`].
    WriteCharge(String),
    /// Make the writes of a profile of that name, then go on with [`Event::Applied`].
    Apply(String, Peripherals),
    /// Send the store as JSON, as [`listing`] says.
    List,
    /// Parse a profile, then go on with [`Event::Parsed`].
    ParseProfile(String),
    /// Read and parse an export file, then go on with [`Event::Export`].
    ReadExport(String),
}

/// What a [`Step`] holds.
#[verifier::ext_equal]
pub enum StepView {
    Reply(Seq<char>),
    Save(Seq<char>),
    WriteKbd((Seq<char>, Seq<char>), i32),
    WriteCharge(Seq<char>),
    Apply(Seq<char>, PeripheralsView),
    List,
    ParseProfile(Seq<char>),
    ReadExport(Seq<char>),
}

impl View for Step {
    type V = StepView;

    open spec fn view(&self) -> StepView {
        match *self {
            Step::Reply(s) => StepView::Reply(s@),
            Step::Save(s) => StepView::Save(s@),
            Step::WriteKbd(w, v) => StepView::WriteKbd((w.path@, w.text@), v),
            Step::WriteCharge(c) => StepView::WriteCharge(c@),
            Step::Apply(n, p) => StepView::Apply(n@, p@),
            Step::List => StepView::List,
            Step::ParseProfile(j) => StepView::ParseProfile(j@),
            Step::ReadExport(p) => StepView::ReadExport(p@),
        }
    }
}

/// What the server answers from.
#[verifier::ext_equal]
pub struct ServerView {
    pub shared: SharedView,
    pub store: StoreView,
}

/// The reply on a read-only board to a request that would drive the EC.
pub open spec fn refusal() -> Seq<char> {
    "ERR read-only (unsupported model)"@
}

impl ServerView {
    /// The performance profile that a request sends to the EC.
    pub open spec fn perf_of(self, req: RequestView) -> Option<PerfProfile> {
        match req {
            RequestView::Profile(p) => if self.shared.read_only {
                None
            } else {
                p
            },
            RequestView::Activate(n) => match lookup(self.store.profiles, n) {
                Some(p) => self.shared.perf_of(p.perf),
                None => None,
            },
            _ => None,
        }
    }

    /// The state after the first part of a request.
    pub open spec fn begun(self, req: RequestView) -> ServerView {
        match req {
            RequestView::Profile(_) => ServerView {
                shared: self.shared.with_perf(self.perf_of(req)),
                ..self
            },
            RequestView::Activate(n) => match lookup(self.store.profiles, n) {
                Some(p) => ServerView { shared: self.shared.applied(p), ..self },
                None => self,
            },
            RequestView::SetDefault(n) => if lookup(self.store.profiles, n) is Some {
                ServerView { store: StoreView { default: n, ..self.store }, ..self }
            } else {
                self
            },
            RequestView::DelProfile(n) => if builtin_name(n) {
                self
            } else {
                ServerView {
                    store: StoreView {
                        active: if self.store.active == n {
                            self.store.default
                        } else {
                            self.store.active
                        },
                        default: self.store.default,
                        profiles: without(self.store.profiles, n),
                    },
                    ..self
                }
            },
            RequestView::FanAuto => ServerView {
                shared: SharedView { manual: None, ..self.shared },
                ..self
            },
            RequestView::FanManual(Some(v)) => if self.shared.read_only {
                self
            } else {
                ServerView {
                    shared: SharedView {
                        manual: Some(clamped(v as int, 0, 100) as i32),
                        ..self.shared
                    },
                    ..self
                }
            },
            _ => self,
        }
    }

    /// What is to be done after the first part of a request.
    pub open spec fn first_step(self, req: RequestView) -> StepView {
        match req {
            RequestView::Status => StepView::Reply(status_text(self.shared)),
            RequestView::Profile(p) => StepView::Reply(
                if self.shared.read_only {
                    refusal()
                } else if p is Some {
                    "OK"@
                } else {
                    "ERR bad profile"@
                },
            ),
            RequestView::KbdSet(Some(v)) => match self.shared.kbd_dir {
                Some(dir) => StepView::WriteKbd(SharedView::kbd_file(dir, v as int), v),
                None => StepView::Reply("ERR no kbd backlight"@),
            },
            RequestView::KbdSet(None) => StepView::Reply("ERR bad value"@),
            RequestView::Charge(Some(c)) => if charge_known(c) {
                StepView::WriteCharge(c)
            } else {
                StepView::Reply("ERR charge set"@)
            },
            RequestView::Charge(None) => StepView::Reply("ERR bad value"@),
            RequestView::ListProfiles => StepView::List,
            RequestView::Activate(n) => match lookup(self.store.profiles, n) {
                Some(p) => StepView::Apply(n, self.shared.writes(p.kbd, p.charge)),
                None => StepView::Reply("ERR no such profile"@),
            },
            RequestView::SetDefault(n) => if lookup(self.store.profiles, n) is Some {
                StepView::Save("OK"@)
            } else {
                StepView::Reply("ERR no such profile"@)
            },
            RequestView::DelProfile(n) => if builtin_name(n) {
                StepView::Reply("ERR built-in profiles cannot be deleted"@)
            } else {
                StepView::Save("OK"@)
            },
            RequestView::SaveProfile(j) => StepView::ParseProfile(j),
            RequestView::ImportTcc(p) => StepView::ReadExport(p),
            RequestView::FanAuto => StepView::Reply("OK"@),
            RequestView::FanManual(v) => StepView::Reply(
                if self.shared.read_only {
                    refusal()
                } else if v is Some {
                    "OK"@
                } else {
                    "ERR bad pct"@
                },
            ),
            RequestView::Unknown => StepView::Reply("ERR unknown"@),
        }
    }
}

fn reply(s: &str) -> (r: Step)
    ensures
        r@ == StepView::Reply(s@),
{
    Step::Reply(s.to_string())
}

fn save(s: &str) -> (r: Step)
    ensures
        r@ == StepView::Save(s@),
{
    Step::Save(s.to_string())
}

/// The first part of a request: everything that needs no file.
pub fn begin<B: EcBackend>(
    req: Request,
    dev: &mut TuxedoIo<B>,
    shared: &mut Shared,
    store: &mut Store,
) -> (r: Step)
    ensures
        ({
            let pre = ServerView { shared: old(shared)@, store: old(store)@ };
            let post = ServerView { shared: final(shared)@, store: final(store)@ };
            &&& post == pre.begun(req@)
            &&& r@ == pre.first_step(req@)
            &&& perf_sent(*old(dev), pre.perf_of(req@), *final(dev))
        }),
{
    match req {
        // Answered from what the loop noted: instant, without touching the EC.
        Request::Status => Step::Reply(shared.status()),
        Request::Profile(p) => {
            if shared.read_only {
                return reply("ERR read-only (unsupported model)");
            }
            match p {
                Some(p) => {
                    let r = dev.set_perf(p);
                    assert(perf_sent(*old(dev), Some(p), *dev));
                    shared.set_perf(p);
                    reply("OK")
                },
                None => reply("ERR bad profile"),
            }
        },
        Request::KbdSet(v) => match v {
            Some(v) => match shared.kbd_file(v) {
                Some(w) => Step::WriteKbd(w, v),
                None => reply("ERR no kbd backlight"),
            },
            None => reply("ERR bad value"),
        },
        Request::Charge(c) => match c {
            Some(c) => if chg_valid(c.as_str()) {
                Step::WriteCharge(c)
            } else {
                reply("ERR charge set")
            },
            None => reply("ERR bad value"),
        },
        Request::ListProfiles => Step::List,
        Request::Activate(name) => match store.get(name.as_str()) {
            Some(p) => Step::Apply(name, apply_profile(dev, shared, p)),
            None => reply("ERR no such profile"),
        },
        Request::SetDefault(name) => {
            if store.get(name.as_str()).is_some() {
                store.default = name;
                save("OK")
            } else {
                reply("ERR no such profile")
            }
        },
        Request::DelProfile(name) => {
            if is_builtin(name.as_str()) {
                reply("ERR built-in profiles cannot be deleted")
            } else {
                store.remove(name.as_str());
                if same(store.active.as_str(), name.as_str()) {
                    store.active = store.default.clone();
                }
                save("OK")
            }
        },
        Request::SaveProfile(json) => Step::ParseProfile(json),
        Request::ImportTcc(path) => Step::ReadExport(path),
        Request::FanAuto => {
            shared.manual = None;
            reply("OK")
        },
        Request::FanManual(v) => {
            if shared.read_only {
                return reply("ERR read-only (unsupported model)");
            }
            match v {
                Some(v) => {
                    shared.manual = Some(clamp(v, 0, 100));
                    reply("OK")
                },
                None => reply("ERR bad pct"),
            }
        },
        Request::Unknown => reply("ERR unknown"),
    }
}

/// What a step gave.
pub enum Event {
    /// The keyboard brightness was sent, and whether the file took it.
    KbdWritten(i32, bool),
    /// The charging profile was sent, and whether the file took it.
    ChargeWritten(String, bool),
    /// The writes of a profile of that name were made; the charging profile where its file
    /// exists and took it.
    Applied(String, Option<String>),
    /// The profile that a text describes, or the parser's message.
    Parsed(Result<Profile, String>),
    /// What an export holds or the parser's message, or why it could not be read.
    Export(Result<Result<Vec<TccProfile>, String>, String>),
}

/// What an [`Event`] holds, with the profiles that an export becomes.
#[verifier::ext_equal]
pub enum EventView {
    KbdWritten(i32, bool),
    ChargeWritten(Seq<char>, bool),
    Applied(Seq<char>, Option<Seq<char>>),
    Parsed(Result<ProfileView, Seq<char>>),
    Export(Result<Result<Seq<ProfileView>, Seq<char>>, Seq<char>>),
}

impl View for Event {
    type V = EventView;

    open spec fn view(&self) -> EventView {
        match *self {
            Event::KbdWritten(v, ok) => EventView::KbdWritten(v, ok),
            Event::ChargeWritten(c, ok) => EventView::ChargeWritten(c@, ok),
            Event::Applied(n, c) => EventView::Applied(n@, opt_text(c)),
            Event::Parsed(Ok(p)) => EventView::Parsed(Ok(p@)),
            Event::Parsed(Err(e)) => EventView::Parsed(Err(e@)),
            Event::Export(Ok(Ok(ts))) => EventView::Export(Ok(Ok(tcc_profiles(ts@)))),
            Event::Export(Ok(Err(e))) => EventView::Export(Ok(Err(e@))),
            Event::Export(Err(e)) => EventView::Export(Err(e@)),
        }
    }
}

impl ServerView {
    /// The state after a step gave `ev`.
    pub open spec fn resumed(self, ev: EventView) -> ServerView {
        match ev {
            EventView::KbdWritten(v, true) => ServerView {
                shared: SharedView { kbd_cur: v, ..self.shared },
                ..self
            },
            EventView::ChargeWritten(c, true) => ServerView {
                shared: self.shared.with_charge(Some(c)),
                ..self
            },
            EventView::Applied(n, c) => ServerView {
                shared: self.shared.with_charge(c),
                store: StoreView { active: n, ..self.store },
            },
            EventView::Parsed(Ok(p)) => ServerView {
                store: StoreView {
                    profiles: with_profile(self.store.profiles, p),
                    ..self.store
                },
                ..self
            },
            EventView::Export(Ok(Ok(ps))) => ServerView {
                store: StoreView {
                    profiles: with_profiles(self.store.profiles, ps),
                    ..self.store
                },
                ..self
            },
            _ => self,
        }
    }
}

/// What is to be done after a step gave `ev`.
pub open spec fn next_step(ev: EventView) -> StepView {
    match ev {
        EventView::KbdWritten(_, ok) => StepView::Reply(
            if ok {
                "OK"@
            } else {
                "ERR write"@
            },
        ),
        EventView::ChargeWritten(_, ok) => StepView::Reply(
            if ok {
                "OK"@
            } else {
                "ERR charge set"@
            },
        ),
        EventView::Applied(_, _) => StepView::Save("OK"@),
        EventView::Parsed(Ok(_)) => StepView::Save("OK"@),
        EventView::Parsed(Err(e)) => StepView::Reply("ERR "@ + e),
        EventView::Export(Ok(Ok(ps))) => StepView::Save("OK imported "@ + dec(ps.len() as int)),
        EventView::Export(Ok(Err(e))) => StepView::Reply("ERR "@ + e),
        EventView::Export(Err(e)) => StepView::Reply("ERR read "@ + e),
    }
}

fn reply_with(s: &str, e: &String) -> (r: Step)
    ensures
        r@ == StepView::Reply(s@ + e@),
{
    let mut t = s.to_string();
    t.append(e.as_str());
    Step::Reply(t)
}

/// Goes on with a request after a step gave `ev`.
pub fn resume(ev: Event, shared: &mut Shared, store: &mut Store) -> (r: Step)
    ensures
        ({
            let pre = ServerView { shared: old(shared)@, store: old(store)@ };
            let post = ServerView { shared: final(shared)@, store: final(store)@ };
            post == pre.resumed(ev@)
        }),
        r@ == next_step(ev@),
{
    match ev {
        Event::KbdWritten(v, ok) => {
            if ok {
                shared.kbd_cur = v;
                reply("OK")
            } else {
                reply("ERR write")
            }
        },
        Event::ChargeWritten(c, ok) => {
            if ok {
                shared.charge_written(Some(c));
                reply("OK")
            } else {
                reply("ERR charge set")
            }
        },
        Event::Applied(name, charge) => {
            shared.charge_written(charge);
            store.active = name;
            save("OK")
        },
        Event::Parsed(parsed) => match parsed {
            Ok(p) => {
                store.put(p);
                save("OK")
            },
            Err(e) => reply_with("ERR ", &e),
        },
        Event::Export(read) => match read {
            Ok(export) => match import_tcc(export) {
                Ok(imported) => {
                    assert(views(imported@).len() == imported@.len());
                    let n = decimal_count(imported.len());
                    store.put_all(imported);
                    let mut t = "OK imported ".to_string();
                    t.append(n.as_str());
                    Step::Save(t)
                },
                Err(e) => reply_with("ERR ", &e),
            },
            Err(e) => reply_with("ERR read ", &e),
        },
    }
}

/// The reply to LISTPROFILES: the store as JSON, where it could be written as such.
pub fn listing(json: Option<String>) -> (r: String)
    ensures
        r@ == match json {
            Some(j) => j@,
            None => "ERR"@,
        },
{
    match json {
        Some(j) => j,
        None => "ERR".to_string(),
    }
}

/// On a read-only board no request sends anything to the EC, and a request that would is
/// refused and changes nothing.
pub proof fn read_only_refuses(s: ServerView, req: RequestView)
    requires
        s.shared.read_only,
    ensures
        s.perf_of(req) is None,
        req is Profile || req is FanManual ==> s.begun(req) == s && s.first_step(req)
            == StepView::Reply(refusal()),
{
}

/// No request turns a read-only board into another, nor the other way round.
pub proof fn read_only_stays(s: ServerView, req: RequestView, ev: EventView)
    ensures
        s.begun(req).shared.read_only == s.shared.read_only,
        s.resumed(ev).shared.read_only == s.shared.read_only,
{
}

/// STATUS and LISTPROFILES change nothing, and neither does a request that is not understood.
pub proof fn questions_change_nothing(s: ServerView, req: RequestView)
    requires
        req is Status || req is ListProfiles || req is Unknown,
    ensures
        s.begun(req) == s,
        s.perf_of(req) is None,
{
}

/// Whether a text is a single line.
pub open spec fn single_line(s: Seq<char>) -> bool {
    forall|i: int| 0 <= i < s.len() ==> s[i] != '\n'
}

proof fn lemma_dec_single(v: int)
    ensures
        single_line(dec(v)),
{
    let n: nat = if v < 0 {
        (-v) as nat
    } else {
        v as nat
    };
    let ds = digits(n, 10);
    lemma_digits_value(n, 10);
    assert forall|i: int| 0 <= i < ds.len() implies ds[i] != '\n' by {
        assert(digit_value(ds[i]) < 10);
    }
}

/// The reply to STATUS is a single line, where the names in it are.
proof fn lemma_status_single(s: SharedView)
    requires
        single_line(s.profile),
        single_line(s.charge),
        single_line(s.charges),
    ensures
        single_line(status_text(s)),
{
    reveal_strlit("{\"cpu_temp\":");
    reveal_strlit(",\"gpu_temp\":");
    reveal_strlit(",\"cpu_fan\":");
    reveal_strlit(",\"gpu_fan\":");
    reveal_strlit(",\"mode\":");
    reveal_strlit(",\"curve_pct\":");
    reveal_strlit(",\"manual\":");
    reveal_strlit(",\"profile\":\"");
    reveal_strlit("\",\"kbd\":");
    reveal_strlit(",\"kbd_max\":");
    reveal_strlit(",\"charge\":\"");
    reveal_strlit("\",\"charges\":\"");
    reveal_strlit("\",\"model_id\":");
    reveal_strlit(",\"read_only\":");
    reveal_strlit("}");
    reveal_strlit("null");
    reveal_strlit("true");
    reveal_strlit("false");
    lemma_dec_single(s.cpu_temp as int);
    lemma_dec_single(s.gpu_temp as int);
    lemma_dec_single(s.cpu_fan as int);
    lemma_dec_single(s.gpu_fan as int);
    lemma_dec_single(s.mode as int);
    lemma_dec_single(s.curve_pct as int);
    if s.manual is Some {
        lemma_dec_single(s.manual->0 as int);
    }
    lemma_dec_single(s.kbd_cur as int);
    lemma_dec_single(s.kbd_max as int);
    lemma_dec_single(s.model_id as int);
    let a = "{\"cpu_temp\":"@ + dec(s.cpu_temp as int) + ",\"gpu_temp\":"@ + dec(s.gpu_temp as int)
        + ",\"cpu_fan\":"@ + dec(s.cpu_fan as int);
    assert(single_line(a));
    let b = a + ",\"gpu_fan\":"@ + dec(s.gpu_fan as int) + ",\"mode\":"@ + dec(s.mode as int)
        + ",\"curve_pct\":"@ + dec(s.curve_pct as int);
    assert(single_line(b));
    let c = b + ",\"manual\":"@ + json_opt(s.manual) + ",\"profile\":\""@ + s.profile
        + "\",\"kbd\":"@ + dec(s.kbd_cur as int);
    assert(single_line(c));
    let d = c + ",\"kbd_max\":"@ + dec(s.kbd_max as int) + ",\"charge\":\""@ + s.charge
        + "\",\"charges\":\""@ + s.charges;
    assert(single_line(d));
    assert(single_line(json_bool(s.read_only)));
    let e = d + "\",\"model_id\":"@ + dec(s.model_id as int) + ",\"read_only\":"@ + json_bool(
        s.read_only,
    ) + "}"@;
    assert(single_line(e));
    assert(status_text(s) == e);
}

/// One request line, one reply line: a reply that needs no file is a single line, as long as
/// the names that STATUS reports are.
pub proof fn replies_are_single_lines(s: ServerView, req: RequestView)
    requires
        single_line(s.shared.profile),
        single_line(s.shared.charge),
        single_line(s.shared.charges),
    ensures
        match s.first_step(req) {
            StepView::Reply(r) => single_line(r),
            StepView::Save(r) => single_line(r),
            _ => true,
        },
{
    lemma_status_single(s.shared);
    reveal_strlit("ERR read-only (unsupported model)");
    reveal_strlit("OK");
    reveal_strlit("ERR bad profile");
    reveal_strlit("ERR no kbd backlight");
    reveal_strlit("ERR bad value");
    reveal_strlit("ERR charge set");
    reveal_strlit("ERR no such profile");
    reveal_strlit("ERR built-in profiles cannot be deleted");
    reveal_strlit("ERR bad pct");
    reveal_strlit("ERR unknown");
}

/// Whether the message that an event carries, where it carries one, is a single line.
pub open spec fn single_line_message(ev: EventView) -> bool {
    match ev {
        EventView::Parsed(Err(e)) => single_line(e),
        EventView::Export(Ok(Err(e))) => single_line(e),
        EventView::Export(Err(e)) => single_line(e),
        _ => true,
    }
}

/// One request line, one reply line: what follows a file or a parser is a reply, and a single
/// line, as long as the message that it hands on is.
pub proof fn later_replies_are_single_lines(ev: EventView)
    requires
        single_line_message(ev),
    ensures
        match next_step(ev) {
            StepView::Reply(r) => single_line(r),
            StepView::Save(r) => single_line(r),
            _ => false,
        },
{
    reveal_strlit("OK");
    reveal_strlit("ERR write");
    reveal_strlit("ERR charge set");
    reveal_strlit("ERR ");
    reveal_strlit("OK imported ");
    reveal_strlit("ERR read ");
    if let EventView::Export(Ok(Ok(ps))) = ev {
        lemma_dec_single(ps.len() as int);
    }
}

/// FANAUTO undoes FANMANUAL: the curve is followed again, and nothing else has changed.
pub proof fn auto_undoes_manual(s: ServerView, v: Option<i32>)
    ensures
        ({
            let t = s.begun(RequestView::FanManual(v)).begun(RequestView::FanAuto);
            t == ServerView { shared: SharedView { manual: None, ..s.shared }, ..s }
        }),
{
}

/// Whether a manual override lies between 0 and 100 percent.
pub open spec fn manual_in_range(s: SharedView) -> bool {
    s.manual is Some ==> 0 <= s.manual->0 <= 100
}

/// No request sets a manual override outside 0 to 100 percent.
pub proof fn manual_stays_in_range(s: ServerView, req: RequestView, ev: EventView)
    requires
        manual_in_range(s.shared),
    ensures
        manual_in_range(s.begun(req).shared),
        manual_in_range(s.resumed(ev).shared),
{
}

/// No request removes the name of a built-in profile.
pub proof fn builtins_survive(s: ServerView, req: RequestView, ev: EventView)
    requires
        has_builtins(s.store.profiles),
    ensures
        has_builtins(s.begun(req).store.profiles),
        has_builtins(s.resumed(ev).store.profiles),
{
    if let RequestView::DelProfile(n) = req {
        if !builtin_name(n) {
            removing_keeps_builtins(s.store.profiles, n);
        }
    }
    match ev {
        EventView::Parsed(Ok(p)) => saving_keeps_builtins(s.store.profiles, p),
        EventView::Export(Ok(Ok(ps))) => importing_keeps_builtins(s.store.profiles, ps),
        _ => {},
    }
}

/// No request gives two profiles one name.
pub proof fn names_stay_unique(s: ServerView, req: RequestView, ev: EventView)
    requires
        unique_names(s.store.profiles),
    ensures
        unique_names(s.begun(req).store.profiles),
        unique_names(s.resumed(ev).store.profiles),
{
    if let RequestView::DelProfile(n) = req {
        removing_keeps_unique(s.store.profiles, n);
    }
    match ev {
        EventView::Parsed(Ok(p)) => saving_keeps_unique(s.store.profiles, p),
        EventView::Export(Ok(Ok(ps))) => importing_keeps_unique(s.store.profiles, ps),
        _ => {},
    }
}

/// Whether a profile of that name exists.
pub open spec fn exists_profile(s: StoreView, name: Seq<char>) -> bool {
    lookup(s.profiles, name) is Some
}

/// The active and the default profile go on to exist, unless the default one is deleted.
pub proof fn active_goes_on(s: ServerView, req: RequestView)
    requires
        exists_profile(s.store, s.store.active),
        exists_profile(s.store, s.store.default),
        req != RequestView::DelProfile(s.store.default),
    ensures
        ({
            let t = s.begun(req).store;
            exists_profile(t, t.active) && exists_profile(t, t.default)
        }),
{
    if let RequestView::DelProfile(n) = req {
        removed_is_gone(s.store.profiles, n, s.store.active);
        removed_is_gone(s.store.profiles, n, s.store.default);
    }
}

/// Saving and importing profiles keep every name, and so the active and the default profile.
pub proof fn saving_keeps_names(s: ServerView, ev: EventView, name: Seq<char>)
    requires
        exists_profile(s.store, name),
    ensures
        exists_profile(s.resumed(ev).store, name),
{
    match ev {
        EventView::Parsed(Ok(p)) => saved_is_found(s.store.profiles, p, name),
        EventView::Export(Ok(Ok(ps))) => lemma_importing_keeps(s.store.profiles, ps, name),
        _ => {},
    }
}

proof fn lemma_importing_keeps(ps: Seq<ProfileView>, qs: Seq<ProfileView>, name: Seq<char>)
    requires
        lookup(ps, name) is Some,
    ensures
        lookup(with_profiles(ps, qs), name) is Some,
    decreases qs.len(),
{
    if qs.len() > 0 {
        lemma_importing_keeps(ps, qs.drop_last(), name);
        saved_is_found(with_profiles(ps, qs.drop_last()), qs.last(), name);
    }
}

/// ACTIVATE of a profile that exists makes it the active one, with its performance mode where
/// the board may be written to and its brightness where there is a backlight.
pub proof fn activation(s: ServerView, name: Seq<char>, charge: Option<Seq<char>>)
    requires
        exists_profile(s.store, name),
    ensures
        ({
            let p = lookup(s.store.profiles, name)->0;
            let req = RequestView::Activate(name);
            let t = s.begun(req).resumed(EventView::Applied(name, charge));
            &&& s.first_step(req) is Apply
            &&& t.store == StoreView { active: name, ..s.store }
            &&& lookup(t.store.profiles, t.store.active) == Some(p)
            &&& !s.shared.read_only && perf_named(p.perf) is Some ==> t.shared.profile
                == perf_named(p.perf)->0.id()
            &&& s.shared.kbd_dir is Some && p.kbd is Some ==> t.shared.kbd_cur == p.kbd->0
            &&& charge is Some ==> t.shared.charge == charge->0
        }),
{
}

/// A profile that was saved is there under its name, and the others are as before.
pub proof fn saved_profile_is_there(s: ServerView, p: ProfileView, other: Seq<char>)
    ensures
        ({
            let t = s.resumed(EventView::Parsed(Ok(p)));
            &&& lookup(t.store.profiles, p.name) == Some(p)
            &&& other != p.name ==> lookup(t.store.profiles, other) == lookup(
                s.store.profiles,
                other,
            )
        }),
{
    saved_is_found(s.store.profiles, p, other);
}

/// A profile that was deleted is gone, unless it is built in; then nothing has changed.
pub proof fn deleted_profile_is_gone(s: ServerView, name: Seq<char>)
    ensures
        ({
            let t = s.begun(RequestView::DelProfile(name));
            if builtin_name(name) {
                t == s
            } else {
                lookup(t.store.profiles, name) is None
            }
        }),
{
    removed_is_gone(s.store.profiles, name, name);
}

/// FANMANUAL holds the duty that it names, or the nearer end of 0 to 100 percent, unless the
/// board is read-only. Nothing else changes.
pub proof fn manual_duty_is_held(s: ServerView, v: i32)
    requires
        !s.shared.read_only,
    ensures
        ({
            let t = s.begun(RequestView::FanManual(Some(v)));
            &&& 0 <= v <= 100 ==> t.shared.manual == Some(v)
            &&& v < 0 ==> t.shared.manual == Some(0i32)
            &&& v > 100 ==> t.shared.manual == Some(100i32)
            &&& t.store == s.store
            &&& t.shared == SharedView { manual: t.shared.manual, ..s.shared }
            &&& s.first_step(RequestView::FanManual(Some(v))) == StepView::Reply("OK"@)
            &&& s.begun(RequestView::FanManual(None)) == s
            &&& s.first_step(RequestView::FanManual(None)) == StepView::Reply("ERR bad pct"@)
        }),
{
}

/// FANAUTO is answered on every board: the override ends, and nothing else changes.
pub proof fn auto_ends_override(s: ServerView)
    ensures
        ({
            let t = s.begun(RequestView::FanAuto);
            &&& t.shared.manual is None
            &&& t.store == s.store
            &&& t.shared == SharedView { manual: None, ..s.shared }
            &&& s.first_step(RequestView::FanAuto) == StepView::Reply("OK"@)
            &&& s.perf_of(RequestView::FanAuto) is None
        }),
{
}

/// SETDEFAULT makes a profile that exists the default one, saves that, and changes nothing else;
/// a name that no profile has is refused.
pub proof fn default_is_set(s: ServerView, n: Seq<char>)
    ensures
        ({
            let req = RequestView::SetDefault(n);
            let t = s.begun(req);
            &&& lookup(s.store.profiles, n) is Some ==> t.store.default == n && t.store.active
                == s.store.active && t.store.profiles == s.store.profiles && t.shared == s.shared
                && s.first_step(req) == StepView::Save("OK"@)
            &&& lookup(s.store.profiles, n) is None ==> t == s && s.first_step(req)
                == StepView::Reply("ERR no such profile"@)
            &&& s.perf_of(req) is None
        }),
{
}

/// DELPROFILE of a name that is not built in leaves the others in their order and saves that;
/// where the active profile was deleted the default one takes its place. A built-in name is
/// refused.
pub proof fn deletion_falls_back_to_default(s: ServerView, n: Seq<char>)
    ensures
        ({
            let req = RequestView::DelProfile(n);
            let t = s.begun(req);
            let built_in = n == "Max Energy Save"@ || n == "Quiet"@ || n == "Office"@ || n
                == "High Performance"@;
            &&& built_in ==> t == s && s.first_step(req) == StepView::Reply(
                "ERR built-in profiles cannot be deleted"@,
            )
            &&& !built_in ==> t.store.profiles == s.store.profiles.filter(
                |p: ProfileView| p.name != n,
            ) && s.first_step(req) == StepView::Save("OK"@)
            &&& !built_in && s.store.active == n ==> t.store.active == s.store.default
            &&& s.store.active != n ==> t.store.active == s.store.active
            &&& t.store.default == s.store.default
            &&& t.shared == s.shared
            &&& s.perf_of(req) is None
        }),
{
    four_names_are_built_in(n);
    removing_leaves_the_others(s.store.profiles, n);
}

/// PROFILE sends a mode that is known to the EC and notes its id; one that is not known is
/// refused and changes nothing. Nothing else changes.
pub proof fn mode_is_sent_and_noted(s: ServerView, p: PerfProfile)
    requires
        !s.shared.read_only,
    ensures
        ({
            let req = RequestView::Profile(Some(p));
            let none = RequestView::Profile(None);
            let t = s.begun(req);
            &&& s.perf_of(req) == Some(p)
            &&& t.shared == SharedView { profile: t.shared.profile, ..s.shared }
            &&& p is PowerSave ==> t.shared.profile == "power_save"@
            &&& p is Enthusiast ==> t.shared.profile == "enthusiast"@
            &&& p is Overboost ==> t.shared.profile == "overboost"@
            &&& t.store == s.store
            &&& s.first_step(req) == StepView::Reply("OK"@)
            &&& s.perf_of(none) is None
            &&& s.begun(none) == s
            &&& s.first_step(none) == StepView::Reply("ERR bad profile"@)
        }),
{
}

/// KBDSET and CHARGE change nothing before the file has taken the value; a value that is
/// missing, a backlight that is not there and a charging profile that does not exist are
/// refused.
pub proof fn peripherals_wait_for_the_file(
    s: ServerView,
    v: Option<i32>,
    c: Option<Seq<char>>,
)
    ensures
        s.begun(RequestView::KbdSet(v)) == s,
        s.begun(RequestView::Charge(c)) == s,
        s.perf_of(RequestView::KbdSet(v)) is None,
        s.perf_of(RequestView::Charge(c)) is None,
        v is Some && s.shared.kbd_dir is Some ==> s.first_step(RequestView::KbdSet(v))
            == StepView::WriteKbd(SharedView::kbd_file(s.shared.kbd_dir->0, v->0 as int), v->0),
        v is Some && s.shared.kbd_dir is None ==> s.first_step(RequestView::KbdSet(v))
            == StepView::Reply("ERR no kbd backlight"@),
        v is None ==> s.first_step(RequestView::KbdSet(v)) == StepView::Reply("ERR bad value"@),
        c is None ==> s.first_step(RequestView::Charge(c)) == StepView::Reply("ERR bad value"@),
        c is Some ==> ({
            let known = c->0 == "high_capacity"@ || c->0 == "balanced"@ || c->0 == "stationary"@;
            &&& known ==> s.first_step(RequestView::Charge(c)) == StepView::WriteCharge(c->0)
            &&& !known ==> s.first_step(RequestView::Charge(c)) == StepView::Reply(
                "ERR charge set"@,
            )
        }),
{
}

/// ACTIVATE of a profile that exists asks for its writes under its name, and leaves the store
/// alone until they are made; a name that no profile has is refused and changes nothing.
pub proof fn activation_asks_for_writes(s: ServerView, n: Seq<char>)
    ensures
        ({
            let req = RequestView::Activate(n);
            let p = lookup(s.store.profiles, n)->0;
            let found = lookup(s.store.profiles, n) is Some;
            &&& s.begun(req).store == s.store
            &&& found ==> s.first_step(req) == StepView::Apply(
                n,
                s.shared.writes(p.kbd, p.charge),
            ) && s.begun(req).shared == s.shared.applied(p)
            &&& found && !s.shared.read_only ==> s.perf_of(req) == perf_named(p.perf)
            &&& !found ==> s.begun(req) == s && s.perf_of(req) is None && s.first_step(req)
                == StepView::Reply("ERR no such profile"@)
        }),
{
}

/// STATUS is answered from what is known, LISTPROFILES lists, SAVEPROFILE and IMPORTTCC hand on
/// what the line says, and every other line is refused. None of them changes anything yet.
pub proof fn questions_are_answered(s: ServerView, text: Seq<char>)
    ensures
        s.first_step(RequestView::Status) == StepView::Reply(status_text(s.shared)),
        s.first_step(RequestView::ListProfiles) is List,
        s.first_step(RequestView::SaveProfile(text)) == StepView::ParseProfile(text),
        s.first_step(RequestView::ImportTcc(text)) == StepView::ReadExport(text),
        s.first_step(RequestView::Unknown) == StepView::Reply("ERR unknown"@),
        s.begun(RequestView::SaveProfile(text)) == s,
        s.begun(RequestView::ImportTcc(text)) == s,
        s.perf_of(RequestView::SaveProfile(text)) is None,
        s.perf_of(RequestView::ImportTcc(text)) is None,
{
}

/// A brightness or a charging profile is noted where its file took it, and answered; where the
/// file did not, nothing changes and that is answered.
pub proof fn written_values_are_noted(s: ServerView, v: i32, c: Seq<char>)
    ensures
        ({
            let k = s.resumed(EventView::KbdWritten(v, true));
            let g = s.resumed(EventView::ChargeWritten(c, true));
            &&& k.shared.kbd_cur == v && k.store == s.store
            &&& k.shared == SharedView { kbd_cur: v, ..s.shared }
            &&& g.shared.charge == c && g.store == s.store
            &&& g.shared == SharedView { charge: c, ..s.shared }
        }),
        s.resumed(EventView::KbdWritten(v, false)) == s,
        s.resumed(EventView::ChargeWritten(c, false)) == s,
        next_step(EventView::KbdWritten(v, true)) == StepView::Reply("OK"@),
        next_step(EventView::ChargeWritten(c, true)) == StepView::Reply("OK"@),
        next_step(EventView::KbdWritten(v, false)) == StepView::Reply("ERR write"@),
        next_step(EventView::ChargeWritten(c, false)) == StepView::Reply("ERR charge set"@),
{
}

/// A profile whose writes were made becomes active, and that is saved. Only what its charging
/// profile says changes beside it.
pub proof fn applied_profile_is_active(s: ServerView, n: Seq<char>, c: Option<Seq<char>>)
    ensures
        ({
            let t = s.resumed(EventView::Applied(n, c));
            &&& t.store.active == n
            &&& t.store.default == s.store.default && t.store.profiles == s.store.profiles
            &&& c is None ==> t.shared == s.shared
            &&& c is Some ==> t.shared == SharedView { charge: c->0, ..s.shared }
            &&& next_step(EventView::Applied(n, c)) == StepView::Save("OK"@)
        }),
{
}

/// What was parsed is put into the store and saved, with the number of profiles for an import.
/// What could not be read or parsed changes nothing, and the message is handed on. Nothing
/// touches the state that STATUS reports, nor the active and the default name.
pub proof fn parsed_profiles_are_stored(
    s: ServerView,
    p: ProfileView,
    ps: Seq<ProfileView>,
    e: Seq<char>,
)
    ensures
        ({
            let t = s.resumed(EventView::Parsed(Ok(p)));
            let u = s.resumed(EventView::Export(Ok(Ok(ps))));
            &&& t.shared == s.shared && u.shared == s.shared
            &&& t.store.active == s.store.active && t.store.default == s.store.default
            &&& u.store.active == s.store.active && u.store.default == s.store.default
            &&& t.store.profiles.last() == p
            &&& t.store.profiles.drop_last() == s.store.profiles.filter(
                |q: ProfileView| q.name != p.name,
            )
            &&& ps.len() == 0 ==> u == s
            &&& ps.len() > 0 ==> u.store.profiles.last() == ps.last()
        }),
        s.resumed(EventView::Parsed(Err(e))) == s,
        s.resumed(EventView::Export(Ok(Err(e)))) == s,
        s.resumed(EventView::Export(Err(e))) == s,
        next_step(EventView::Parsed(Ok(p))) == StepView::Save("OK"@),
        next_step(EventView::Parsed(Err(e))) == StepView::Reply("ERR "@ + e),
        next_step(EventView::Export(Ok(Err(e)))) == StepView::Reply("ERR "@ + e),
        next_step(EventView::Export(Err(e))) == StepView::Reply("ERR read "@ + e),
        next_step(EventView::Export(Ok(Ok(ps)))) == StepView::Save(
            "OK imported "@ + dec(ps.len() as int),
        ),
{
    saved_stands_last(s.store.profiles, p);
    profiles_are_put_in_turn(s.store.profiles, Seq::empty(), p);
    if ps.len() == 0 {
        assert(ps == Seq::<ProfileView>::empty());
    } else {
        profiles_are_put_in_turn(s.store.profiles, ps.drop_last(), ps.last());
        assert(ps.drop_last().push(ps.last()) == ps);
    }
}

/// A line of a command word, a blank and an argument is that command with that argument: names
/// and texts are the whole argument without the blanks around it, modes and numbers its first
/// word.
pub proof fn lines_are_commands(word: Seq<char>, arg: Seq<char>)
    requires
        word.len() > 0,
        forall|i: int| 0 <= i < word.len() ==> !is_white(word[i]),
        words(arg).len() > 0,
        trimmed(arg).len() > 0,
    ensures
        ({
            let r = request_of(word.push(' ') + arg);
            let first = words(arg)[0];
            &&& word == "STATUS"@ ==> r is Status
            &&& word == "LISTPROFILES"@ ==> r is ListProfiles
            &&& word == "FANAUTO"@ ==> r is FanAuto
            &&& word == "ACTIVATE"@ ==> r == RequestView::Activate(trimmed(arg))
            &&& word == "SETDEFAULT"@ ==> r == RequestView::SetDefault(trimmed(arg))
            &&& word == "DELPROFILE"@ ==> r == RequestView::DelProfile(trimmed(arg))
            &&& word == "SAVEPROFILE"@ ==> r == RequestView::SaveProfile(trimmed(arg))
            &&& word == "IMPORTTCC"@ ==> r == RequestView::ImportTcc(trimmed(arg))
            &&& word == "PROFILE"@ ==> r == RequestView::Profile(perf_named(first))
            &&& word == "CHARGE"@ ==> r == RequestView::Charge(Some(first))
            &&& word == "KBDSET"@ && parse_int(first, 10) is Some ==> r is KbdSet && r->KbdSet_0
                is Some && Some(r->KbdSet_0->0 as int) == parse_int(first, 10)
            &&& word == "KBDSET"@ && parse_int(first, 10) is None ==> r == RequestView::KbdSet(
                None,
            )
            &&& word == "FANMANUAL"@ && parse_int(first, 10) is Some ==> r is FanManual
                && r->FanManual_0 is Some && Some(r->FanManual_0->0 as int) == parse_int(first, 10)
            &&& word == "FANMANUAL"@ && parse_int(first, 10) is None ==> r
                == RequestView::FanManual(None)
        }),
{
    command_splits(word, ' ', arg);
    let line = word.push(' ') + arg;
    assert(words(line)[0] == word);
    assert(words(line)[1] == words(arg)[0]);
    lemma_words_differ();
}

proof fn lemma_words_differ()
    ensures
        "STATUS"@.len() == 6 && "STATUS"@[0] == 'S',
        "PROFILE"@.len() == 7 && "PROFILE"@[0] == 'P',
        "KBDSET"@.len() == 6 && "KBDSET"@[0] == 'K',
        "CHARGE"@.len() == 6 && "CHARGE"@[0] == 'C',
        "LISTPROFILES"@.len() == 12,
        "ACTIVATE"@.len() == 8,
        "SETDEFAULT"@.len() == 10 && "SETDEFAULT"@[0] == 'S',
        "DELPROFILE"@.len() == 10 && "DELPROFILE"@[0] == 'D',
        "SAVEPROFILE"@.len() == 11,
        "IMPORTTCC"@.len() == 9 && "IMPORTTCC"@[0] == 'I',
        "FANAUTO"@.len() == 7 && "FANAUTO"@[0] == 'F',
        "FANMANUAL"@.len() == 9 && "FANMANUAL"@[0] == 'F',
{
    reveal_strlit("STATUS");
    reveal_strlit("PROFILE");
    reveal_strlit("KBDSET");
    reveal_strlit("CHARGE");
    reveal_strlit("LISTPROFILES");
    reveal_strlit("ACTIVATE");
    reveal_strlit("SETDEFAULT");
    reveal_strlit("DELPROFILE");
    reveal_strlit("SAVEPROFILE");
    reveal_strlit("IMPORTTCC");
    reveal_strlit("FANAUTO");
    reveal_strlit("FANMANUAL");
}

/// A command word alone: what needs a name or a path is not understood, what needs a value comes
/// without one.
pub proof fn bare_commands(word: Seq<char>)
    requires
        word.len() > 0,
        forall|i: int| 0 <= i < word.len() ==> !is_white(word[i]),
    ensures
        ({
            let r = request_of(word);
            &&& word == "STATUS"@ ==> r is Status
            &&& word == "LISTPROFILES"@ ==> r is ListProfiles
            &&& word == "FANAUTO"@ ==> r is FanAuto
            &&& word == "PROFILE"@ ==> r == RequestView::Profile(None)
            &&& word == "KBDSET"@ ==> r == RequestView::KbdSet(None)
            &&& word == "CHARGE"@ ==> r == RequestView::Charge(None)
            &&& word == "FANMANUAL"@ ==> r == RequestView::FanManual(None)
            &&& word == "SAVEPROFILE"@ ==> r == RequestView::SaveProfile(Seq::empty())
            &&& word == "ACTIVATE"@ || word == "SETDEFAULT"@ || word == "DELPROFILE"@ || word
                == "IMPORTTCC"@ ==> r is Unknown
        }),
{
    command_splits(word, ' ', Seq::empty());
    assert(words(word)[0] == word);
    lemma_words_differ();
}

/// A line without words, or with another first word than those of the commands, is not
/// understood, whatever follows. Small letters make another word.
pub proof fn other_lines_are_unknown(line: Seq<char>)
    requires
        words(line).len() == 0 || ({
            let w = words(line)[0];
            &&& w != "STATUS"@ && w != "PROFILE"@ && w != "KBDSET"@ && w != "CHARGE"@
            &&& w != "LISTPROFILES"@ && w != "ACTIVATE"@ && w != "SETDEFAULT"@
            &&& w != "DELPROFILE"@ && w != "SAVEPROFILE"@ && w != "IMPORTTCC"@
            &&& w != "FANAUTO"@ && w != "FANMANUAL"@
        }),
    ensures
        request_of(line) is Unknown,
{
}

/// A view shows what a request, a step or an event holds.
pub proof fn protocol_views_show_contents(
    s: String,
    n: i32,
    ok: bool,
    ts: Vec<TccProfile>,
    p: Profile,
)
    ensures
        Request::Activate(s)@ == RequestView::Activate(s@),
        Request::SetDefault(s)@ == RequestView::SetDefault(s@),
        Request::DelProfile(s)@ == RequestView::DelProfile(s@),
        Request::SaveProfile(s)@ == RequestView::SaveProfile(s@),
        Request::ImportTcc(s)@ == RequestView::ImportTcc(s@),
        Request::Charge(Some(s))@ == RequestView::Charge(Some(s@)),
        Request::KbdSet(Some(n))@ == RequestView::KbdSet(Some(n)),
        Request::FanManual(Some(n))@ == RequestView::FanManual(Some(n)),
        Step::Reply(s)@ == StepView::Reply(s@),
        Step::Save(s)@ == StepView::Save(s@),
        Step::WriteCharge(s)@ == StepView::WriteCharge(s@),
        Step::ParseProfile(s)@ == StepView::ParseProfile(s@),
        Step::ReadExport(s)@ == StepView::ReadExport(s@),
        Event::KbdWritten(n, ok)@ == EventView::KbdWritten(n, ok),
        Event::ChargeWritten(s, ok)@ == EventView::ChargeWritten(s@, ok),
        Event::Applied(s, None)@ == EventView::Applied(s@, None),
        Event::Parsed(Ok(p))@ == EventView::Parsed(Ok(p@)),
        Event::Parsed(Err(s))@ == EventView::Parsed(Err(s@)),
        Event::Export(Ok(Ok(ts)))@ == EventView::Export(Ok(Ok(tcc_profiles(ts@)))),
        Event::Export(Ok(Err(s)))@ == EventView::Export(Ok(Err(s@))),
        Event::Export(Err(s))@ == EventView::Export(Err(s@)),
{
}

} // verus!
