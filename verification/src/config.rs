//! The daemon's configuration.

use crate::profiles::opt_text;
use vstd::prelude::*;
use vstd::string::*;

verus! {

/// What the configuration file says.
pub struct Config {
    /// Seconds between two ticks.
    pub poll_seconds: u64,
    /// Degrees by which the fan slows down late.
    pub hysteresis_c: i32,
    /// Profile to activate at start.
    pub profile: Option<String>,
    pub perf_profile: Option<String>,
    pub kbd_brightness: Option<i32>,
    pub charge_profile: Option<String>,
    /// Fan curve for when there is no active profile.
    pub curve: Vec<(i32, i32)>,
}

/// What a [`Config`] holds.
#[verifier::ext_equal]
pub struct ConfigView {
    pub poll_seconds: u64,
    pub hysteresis_c: i32,
    pub profile: Option<Seq<char>>,
    pub perf_profile: Option<Seq<char>>,
    pub kbd_brightness: Option<i32>,
    pub charge_profile: Option<Seq<char>>,
    pub curve: Seq<(i32, i32)>,
}

impl View for Config {
    type V = ConfigView;

    open spec fn view(&self) -> ConfigView {
        ConfigView {
            poll_seconds: self.poll_seconds,
            hysteresis_c: self.hysteresis_c,
            profile: opt_text(self.profile),
            perf_profile: opt_text(self.perf_profile),
            kbd_brightness: self.kbd_brightness,
            charge_profile: opt_text(self.charge_profile),
            curve: self.curve@,
        }
    }
}

/// The curve of a configuration that gives none.
pub open spec fn quiet_curve() -> Seq<(i32, i32)> {
    seq![(25, 0), (50, 0), (62, 24), (68, 36), (72, 44), (80, 60), (86, 72), (90, 100)]
}

/// The configuration where none is given.
pub open spec fn quiet_config() -> ConfigView {
    ConfigView {
        poll_seconds: 2,
        hysteresis_c: 3,
        profile: None,
        perf_profile: None,
        kbd_brightness: None,
        charge_profile: None,
        curve: quiet_curve(),
    }
}

/// Seconds between two ticks where the configuration does not say.
pub fn d_poll() -> (r: u64)
    ensures
        r == quiet_config().poll_seconds,
{
    2
}

/// Hysteresis where the configuration does not say.
pub fn d_hyst() -> (r: i32)
    ensures
        r == quiet_config().hysteresis_c,
{
    3
}

/// Fan curve where the configuration does not say.
pub fn d_curve() -> (r: Vec<(i32, i32)>)
    ensures
        r@ == quiet_curve(),
{
    let r: Vec<(i32, i32)> = vec![
        (25, 0),
        (50, 0),
        (62, 24),
        (68, 36),
        (72, 44),
        (80, 60),
        (86, 72),
        (90, 100),
    ];
    assert(r@ == quiet_curve());
    r
}

impl Default for Config {
    fn default() -> (r: Self)
        ensures
            r@ == quiet_config(),
    {
        Config {
            poll_seconds: d_poll(),
            hysteresis_c: d_hyst(),
            profile: None,
            perf_profile: None,
            kbd_brightness: None,
            charge_profile: None,
            curve: d_curve(),
        }
    }
}

/// What became of the configuration file.
pub enum ConfigFile {
    /// It could not be read.
    Missing,
    /// It could not be parsed; the parser's message.
    Malformed(String),
    Parsed(Config),
}

/// The configuration to run with.
pub open spec fn effective(file: ConfigFile) -> ConfigView {
    match file {
        ConfigFile::Parsed(c) => c@,
        _ => quiet_config(),
    }
}

/// What is logged about the configuration file.
pub open spec fn config_note(path: Seq<char>, file: ConfigFile) -> Option<Seq<char>> {
    match file {
        ConfigFile::Missing => Some("no config at "@ + path + "; built-in quiet defaults"@),
        ConfigFile::Malformed(e) => Some("config parse "@ + path + ": "@ + e@ + "; defaults"@),
        ConfigFile::Parsed(_) => None,
    }
}

/// The configuration to run with, and what is logged where it is not the file's.
pub fn load_config(path: &str, file: ConfigFile) -> (r: (Config, Option<String>))
    ensures
        r.0@ == effective(file),
        opt_text(r.1) == config_note(path@, file),
{
    match file {
        ConfigFile::Parsed(c) => (c, None),
        ConfigFile::Malformed(e) => {
            let mut s = "config parse ".to_string();
            s.append(path);
            s.append(": ");
            s.append(e.as_str());
            s.append("; defaults");
            (Config::default(), Some(s))
        },
        ConfigFile::Missing => {
            let mut s = "no config at ".to_string();
            s.append(path);
            s.append("; built-in quiet defaults");
            (Config::default(), Some(s))
        },
    }
}

/// The path of the configuration file: the first argument, where there is one.
pub fn config_path(arg: Option<String>) -> (r: String)
    ensures
        r@ == match arg {
            Some(p) => p@,
            None => "/etc/tuxedo-control/config.json"@,
        },
{
    match arg {
        Some(p) => p,
        None => "/etc/tuxedo-control/config.json".to_string(),
    }
}

/// A configuration file that was parsed is what the daemon runs with, and nothing is logged;
/// otherwise it runs with the defaults, and says why.
pub proof fn parsed_configuration_is_used(path: Seq<char>, c: Config, e: String)
    ensures
        effective(ConfigFile::Parsed(c)) == c@,
        config_note(path, ConfigFile::Parsed(c)) is None,
        effective(ConfigFile::Missing) == quiet_config(),
        effective(ConfigFile::Malformed(e)) == quiet_config(),
        config_note(path, ConfigFile::Missing) == Some(
            "no config at "@ + path + "; built-in quiet defaults"@,
        ),
        config_note(path, ConfigFile::Malformed(e)) == Some(
            "config parse "@ + path + ": "@ + e@ + "; defaults"@,
        ),
{
}

/// The default curve rises from no duty to full duty: hotter points never ask for less.
pub proof fn quiet_curve_rises(i: int, j: int)
    requires
        0 <= i < j < quiet_curve().len(),
    ensures
        quiet_curve()[i].0 < quiet_curve()[j].0,
        quiet_curve()[i].1 <= quiet_curve()[j].1,
        quiet_curve()[0].0 == 25 && quiet_curve()[0].1 == 0,
        quiet_curve().last().0 == 90 && quiet_curve().last().1 == 100,
{
}

/// A view shows the fields as they stand.
pub proof fn configuration_view_shows_fields(c: Config)
    ensures
        c@.poll_seconds == c.poll_seconds,
        c@.hysteresis_c == c.hysteresis_c,
        c@.kbd_brightness == c.kbd_brightness,
        c@.curve == c.curve@,
        c.profile is Some ==> c@.profile == Some(c.profile->0@),
        c.profile is None ==> c@.profile is None,
        c.perf_profile is Some ==> c@.perf_profile == Some(c.perf_profile->0@),
        c.perf_profile is None ==> c@.perf_profile is None,
        c.charge_profile is Some ==> c@.charge_profile == Some(c.charge_profile->0@),
        c.charge_profile is None ==> c@.charge_profile is None,
{
}

/// Without a configuration the loop ticks every two seconds, slows down three degrees late, and
/// applies no profile.
pub proof fn quiet_config_applies_nothing()
    ensures
        quiet_config().poll_seconds == 2,
        quiet_config().hysteresis_c == 3,
        quiet_config().profile is None,
        quiet_config().perf_profile is None,
        quiet_config().kbd_brightness is None,
        quiet_config().charge_profile is None,
        quiet_config().curve == quiet_curve(),
{
}

} // verus!
