//! Keyboard backlight and charging profile: what the files under `/sys` mean and what is
//! written to them.

use crate::number::{
    dec, decimal, decimal_round_trip, digit_value, lemma_digits_value, parse_i32, parse_int,
};
use crate::text::{chars_of, is_white, same, trim, trim_end, trim_start, trimmed};
use vstd::prelude::*;
use vstd::string::*;

verus! {

/// Whether `part` stands in `s` at position `i`.
pub open spec fn stands_at(s: Seq<char>, part: Seq<char>, i: int) -> bool {
    0 <= i <= s.len() - part.len() && s.subrange(i, i + part.len()) == part
}

/// Whether `part` stands somewhere in `s`.
pub open spec fn contains(s: Seq<char>, part: Seq<char>) -> bool {
    exists|i: int| stands_at(s, part, i)
}

fn match_at(s: &Vec<char>, part: &Vec<char>, i: usize) -> (r: bool)
    requires
        i + part@.len() <= s@.len(),
    ensures
        r == stands_at(s@, part@, i as int),
{
    let n = part.len();
    let len = s.len();
    for k in 0..n
        invariant
            n == part@.len(),
            len == s@.len(),
            i + n <= len,
            forall|j: int| 0 <= j < k ==> s@[i + j] == part@[j],
    {
        if s[i + k] != part[k] {
            assert(s@.subrange(i as int, i + part@.len())[k as int] != part@[k as int]);
            return false;
        }
    }
    assert(s@.subrange(i as int, i + part@.len()) == part@);
    true
}

/// Whether `part` stands somewhere in `s`.
pub fn has_part(s: &str, part: &str) -> (r: bool)
    ensures
        r == contains(s@, part@),
{
    let v = chars_of(s);
    let p = chars_of(part);
    if p.len() == 0 {
        assert(s@.subrange(0, part@.len() as int) == part@);
        assert(stands_at(s@, part@, 0));
        return true;
    }
    if p.len() > v.len() {
        return false;
    }
    let last = v.len() - p.len();
    for i in 0..last + 1
        invariant
            v@ == s@,
            p@ == part@,
            last == v@.len() - p@.len(),
            forall|j: int| 0 <= j < i ==> !stands_at(s@, part@, j),
    {
        if match_at(&v, &p, i) {
            return true;
        }
    }
    false
}

/// Whether an LED of that name is a keyboard backlight.
pub open spec fn kbd_name(name: Seq<char>) -> bool {
    contains(name, "kbd_backlight"@)
}

/// The position of the first LED that is a keyboard backlight.
pub fn kbd_find(names: &Vec<String>) -> (r: Option<usize>)
    ensures
        match r {
            Some(i) => i < names@.len() && kbd_name(names@[i as int]@) && forall|j: int|
                0 <= j < i ==> !kbd_name((#[trigger] names@[j])@),
            None => forall|j: int| 0 <= j < names@.len() ==> !kbd_name((#[trigger] names@[j])@),
        },
{
    for i in 0..names.len()
        invariant
            forall|j: int| 0 <= j < i ==> !kbd_name((#[trigger] names@[j])@),
    {
        if has_part(names[i].as_str(), "kbd_backlight") {
            return Some(i);
        }
    }
    None
}

/// The number in a brightness file; -1 where there is none.
pub open spec fn kbd_value(text: Option<Seq<char>>) -> int {
    match text {
        None => -1,
        Some(s) => match parse_int(trimmed(s), 10) {
            Some(v) => v,
            None => -1,
        },
    }
}

/// The number in a brightness file, from what was read of it.
pub fn kbd_read(text: Option<&str>) -> (r: i32)
    ensures
        r == kbd_value(
            match text {
                Some(s) => Some(s@),
                None => None,
            },
        ),
{
    match text {
        Some(s) => match parse_i32(trim(s).as_str()) {
            Some(v) => v,
            None => -1,
        },
        None => -1,
    }
}

/// What is written for a brightness; one below zero counts as zero.
pub open spec fn kbd_text(v: int) -> Seq<char> {
    dec(
        if v >= 0 {
            v
        } else {
            0
        },
    )
}

/// What is written to the brightness file for `v`.
pub fn kbd_write(v: i32) -> (r: String)
    ensures
        r@ == kbd_text(v as int),
{
    if v >= 0 {
        decimal(v)
    } else {
        decimal(0)
    }
}

/// Whether a charging profile of that name exists.
pub open spec fn charge_known(v: Seq<char>) -> bool {
    v == "high_capacity"@ || v == "balanced"@ || v == "stationary"@
}

/// Whether a charging profile of that name exists. No other is ever written.
pub fn chg_valid(v: &str) -> (r: bool)
    ensures
        r == charge_known(v@),
{
    same(v, "high_capacity") || same(v, "balanced") || same(v, "stationary")
}

/// The text of an attribute file, trimmed; empty where it could not be read.
pub open spec fn attr_value(text: Option<Seq<char>>) -> Seq<char> {
    match text {
        Some(s) => trimmed(s),
        None => Seq::empty(),
    }
}

/// The text of an attribute file, from what was read of it.
pub fn attr_text(text: Option<&str>) -> (r: String)
    ensures
        r@ == attr_value(
            match text {
                Some(s) => Some(s@),
                None => None,
            },
        ),
{
    match text {
        Some(s) => trim(s),
        None => String::new(),
    }
}

/// The path of an attribute in a directory.
pub fn attr_path(dir: &str, attr: &str) -> (r: String)
    ensures
        r@ == dir@ + "/"@ + attr@,
{
    let mut p = dir.to_string();
    p.append("/");
    p.append(attr);
    p
}

/// The directory of the LEDs, unless another is given.
pub fn leds_dir(other: Option<String>) -> (r: String)
    ensures
        r@ == match other {
            Some(d) => d@,
            None => "/sys/class/leds"@,
        },
{
    match other {
        Some(d) => d,
        None => "/sys/class/leds".to_string(),
    }
}

/// The directory of the charging profile, unless another is given.
pub fn chg_dir(other: Option<String>) -> (r: String)
    ensures
        r@ == match other {
            Some(d) => d@,
            None => "/sys/devices/platform/tuxedo_keyboard/charging_profile"@,
        },
{
    match other {
        Some(d) => d,
        None => "/sys/devices/platform/tuxedo_keyboard/charging_profile".to_string(),
    }
}

/// A text whose ends are not whitespace is left as it is, also with a line end behind it.
proof fn lemma_trimmed(s: Seq<char>)
    requires
        s.len() > 0,
        !is_white(s[0]),
        !is_white(s.last()),
    ensures
        trimmed(s) == s,
        trimmed(s.push('\n')) == s,
{
    let t = s.push('\n');
    assert(trim_start(t) == t);
    assert(t.drop_last() == s);
    assert(trim_end(s) == s);
}

/// Reading a brightness that was written gives it back, with anything below zero as zero.
pub proof fn kbd_round_trip(v: i32)
    ensures
        kbd_value(Some(kbd_text(v as int))) == if v >= 0 {
            v as int
        } else {
            0
        },
        kbd_value(Some(kbd_text(v as int).push('\n'))) == kbd_value(Some(kbd_text(v as int))),
{
    let w: i32 = if v >= 0 {
        v
    } else {
        0
    };
    let s = dec(w as int);
    lemma_digits_value(w as nat, 10);
    assert(digit_value(s[0]) < 10);
    assert(digit_value(s[s.len() - 1]) < 10);
    lemma_trimmed(s);
    decimal_round_trip(w);
}

/// Reading a charging profile that was written gives it back.
pub proof fn charge_round_trip(v: Seq<char>)
    requires
        charge_known(v),
    ensures
        attr_value(Some(v)) == v,
        attr_value(Some(v.push('\n'))) == v,
{
    reveal_strlit("high_capacity");
    reveal_strlit("balanced");
    reveal_strlit("stationary");
    lemma_trimmed(v);
}

/// A text is found in every text that it is a piece of, whatever stands around it, and is a piece
/// of every text that it is found in.
pub proof fn parts_are_found(a: Seq<char>, part: Seq<char>, b: Seq<char>, s: Seq<char>)
    ensures
        contains(a + part + b, part),
        kbd_name(a + "kbd_backlight"@ + b),
        contains(s, part) ==> exists|i: int|
            #![trigger s.skip(i)]
            0 <= i && i + part.len() <= s.len() && s.skip(i).take(part.len() as int) == part,
        kbd_name(s) <==> contains(s, "kbd_backlight"@),
{
    let k = "kbd_backlight"@;
    let t = a + part + b;
    let n = a.len() as int;
    assert(t.subrange(n, n + part.len()) == part);
    assert(stands_at(t, part, n));
    let u = a + k + b;
    assert(u.subrange(n, n + k.len()) == k);
    assert(stands_at(u, k, n));
    if contains(s, part) {
        let i = choose|i: int| stands_at(s, part, i);
        assert(s.skip(i).take(part.len() as int) == s.subrange(i, i + part.len()));
    }
}

/// A brightness file gives the number in it, with whitespace around it ignored, and -1 where it
/// holds no number or could not be read.
pub proof fn brightness_is_the_number(s: Seq<char>)
    ensures
        kbd_value(None) == -1,
        parse_int(trimmed(s), 10) is None ==> kbd_value(Some(s)) == -1,
        parse_int(trimmed(s), 10) is Some ==> Some(kbd_value(Some(s))) == parse_int(
            trimmed(s),
            10,
        ),
        attr_value(None).len() == 0,
        attr_value(Some(s)) == trimmed(s),
{
}

/// A brightness is written in decimal, with anything below zero as zero.
pub proof fn brightness_is_written_in_decimal(v: int)
    ensures
        v >= 0 ==> kbd_text(v) == dec(v),
        v < 0 ==> kbd_text(v) == seq!['0'],
{
}

/// There are three charging profiles.
pub proof fn three_charging_profiles(v: Seq<char>)
    ensures
        charge_known(v) <==> v == "high_capacity"@ || v == "balanced"@ || v == "stationary"@,
{
}

} // verus!
