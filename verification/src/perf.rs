//! Performance profiles of the EC.

use crate::text::{ascii_lower, lower, lower_char, same};
use vstd::prelude::*;

verus! {

/// A performance profile that the EC knows.
#[derive(Clone, Copy, Debug, PartialEq, Eq, Structural)]
pub enum PerfProfile {
    PowerSave,
    Enthusiast,
    Overboost,
}

/// The profile that a name stands for, whatever its case.
pub open spec fn perf_named(name: Seq<char>) -> Option<PerfProfile> {
    let l = lower(name);
    if l == "power_save"@ || l == "powersave"@ || l == "power-save"@ {
        Some(PerfProfile::PowerSave)
    } else if l == "enthusiast"@ || l == "balanced"@ {
        Some(PerfProfile::Enthusiast)
    } else if l == "overboost"@ || l == "performance"@ {
        Some(PerfProfile::Overboost)
    } else {
        None
    }
}

impl PerfProfile {
    /// The canonical id.
    pub open spec fn id(self) -> Seq<char> {
        match self {
            PerfProfile::PowerSave => "power_save"@,
            PerfProfile::Enthusiast => "enthusiast"@,
            PerfProfile::Overboost => "overboost"@,
        }
    }

    /// The number that the EC knows the profile by.
    pub open spec fn number(self) -> i32 {
        match self {
            PerfProfile::PowerSave => 1,
            PerfProfile::Enthusiast => 2,
            PerfProfile::Overboost => 3,
        }
    }

    /// The profile that `s` names, in any case and by any of its names.
    pub fn from_name(s: &str) -> (r: Option<Self>)
        ensures
            r == perf_named(s@),
    {
        let l = ascii_lower(s);
        let l = l.as_str();
        if same(l, "power_save") || same(l, "powersave") || same(l, "power-save") {
            Some(PerfProfile::PowerSave)
        } else if same(l, "enthusiast") || same(l, "balanced") {
            Some(PerfProfile::Enthusiast)
        } else if same(l, "overboost") || same(l, "performance") {
            Some(PerfProfile::Overboost)
        } else {
            None
        }
    }

    /// Canonical id used in the configuration and in the socket protocol.
    pub fn as_id(&self) -> (r: &'static str)
        ensures
            r@ == self.id(),
    {
        match self {
            PerfProfile::PowerSave => "power_save",
            PerfProfile::Enthusiast => "enthusiast",
            PerfProfile::Overboost => "overboost",
        }
    }

    /// The number that the EC knows the profile by.
    pub fn code(&self) -> (r: i32)
        ensures
            r == self.number(),
    {
        match self {
            PerfProfile::PowerSave => 1,
            PerfProfile::Enthusiast => 2,
            PerfProfile::Overboost => 3,
        }
    }
}

/// The canonical id of a profile names that profile.
pub proof fn id_names_profile(p: PerfProfile)
    ensures
        perf_named(p.id()) == Some(p),
{
    reveal_strlit("power_save");
    reveal_strlit("powersave");
    reveal_strlit("power-save");
    reveal_strlit("enthusiast");
    reveal_strlit("balanced");
    reveal_strlit("overboost");
    reveal_strlit("performance");
    let s = p.id();
    assert forall|i: int| 0 <= i < s.len() implies lower(s)[i] == s[i] by {
        assert(lower_char(s[i]) == s[i]);
    }
    assert(lower(s) == s);
    assert("power_save"@[0] == 'p');
    assert("enthusiast"@[0] == 'e');
    assert("overboost"@[0] == 'o');
    assert("powersave"@[0] == 'p');
    assert("power-save"@[0] == 'p');
    assert("balanced"@[0] == 'b');
}

/// A name means a profile exactly where, in lower case, it is one of that profile's names.
pub proof fn names_of_profiles(s: Seq<char>)
    ensures
        perf_named(s) == Some(PerfProfile::PowerSave) <==> lower(s) == "power_save"@ || lower(s)
            == "powersave"@ || lower(s) == "power-save"@,
        perf_named(s) == Some(PerfProfile::Enthusiast) <==> lower(s) == "enthusiast"@ || lower(s)
            == "balanced"@,
        perf_named(s) == Some(PerfProfile::Overboost) <==> lower(s) == "overboost"@ || lower(s)
            == "performance"@,
{
    reveal_strlit("power_save");
    reveal_strlit("powersave");
    reveal_strlit("power-save");
    reveal_strlit("enthusiast");
    reveal_strlit("balanced");
    reveal_strlit("overboost");
    reveal_strlit("performance");
    assert("power_save"@[0] == 'p' && "powersave"@[0] == 'p' && "power-save"@[0] == 'p');
    assert("enthusiast"@[0] == 'e' && "balanced"@[0] == 'b' && "overboost"@[0] == 'o');
    assert("performance"@[1] == 'e' && "powersave"@[1] == 'o' && "power_save"@[1] == 'o'
        && "power-save"@[1] == 'o' && "performance"@[0] == 'p');
}

/// The case of a name does not matter.
pub proof fn case_does_not_matter(s: Seq<char>, t: Seq<char>)
    requires
        s.len() == t.len(),
        forall|i: int|
            0 <= i < s.len() ==> s[i] == t[i] || (65 <= s[i] as u32 <= 90 && #[trigger] t[i] as u32
                == s[i] as u32 + 32),
    ensures
        perf_named(s) == perf_named(t),
{
    assert forall|i: int| 0 <= i < s.len() implies lower(s)[i] == lower(t)[i] by {
        let c = t[i];
        assert(lower_char(s[i]) == lower_char(c));
    }
    assert(lower(s) == lower(t));
}

/// The EC numbers the profiles from 1, by rising speed, and each has its own id.
pub proof fn profiles_are_numbered()
    ensures
        PerfProfile::PowerSave.number() == 1,
        PerfProfile::Enthusiast.number() == 2,
        PerfProfile::Overboost.number() == 3,
        PerfProfile::PowerSave.id() == "power_save"@,
        PerfProfile::Enthusiast.id() == "enthusiast"@,
        PerfProfile::Overboost.id() == "overboost"@,
{
}

} // verus!
