//! Integers as text: decimal and hexadecimal, both ways.

use crate::text::chars_of;
use vstd::prelude::*;
use vstd::string::*;

verus! {

/// The value of a digit in bases up to sixteen.
pub open spec fn digit_value(c: char) -> int {
    let u = c as u32;
    if 48 <= u <= 57 {
        u - 48
    } else if 97 <= u <= 102 {
        u - 87
    } else if 65 <= u <= 70 {
        u - 55
    } else {
        16
    }
}

/// Whether every character of `s` is a digit in base `radix`.
pub open spec fn all_digits(s: Seq<char>, radix: int) -> bool {
    forall|i: int| 0 <= i < s.len() ==> #[trigger] digit_value(s[i]) < radix
}

/// The number that the digits of `s` write in base `radix`.
pub open spec fn digits_value(s: Seq<char>, radix: int) -> int
    decreases s.len(),
{
    if s.len() == 0 {
        0
    } else {
        digits_value(s.drop_last(), radix) * radix + digit_value(s.last())
    }
}

/// The 32-bit integer that `s` writes in base `radix`: an optional sign, then at least one
/// digit. Nothing where `s` has another form or the value does not fit.
pub open spec fn parse_int(s: Seq<char>, radix: int) -> Option<int> {
    let signed = s.len() > 0 && (s[0] == '-' || s[0] == '+');
    let ds = if signed {
        s.skip(1)
    } else {
        s
    };
    if ds.len() == 0 || !all_digits(ds, radix) {
        None
    } else {
        let v = if signed && s[0] == '-' {
            -digits_value(ds, radix)
        } else {
            digits_value(ds, radix)
        };
        if i32::MIN <= v <= i32::MAX {
            Some(v)
        } else {
            None
        }
    }
}

/// A digit below sixteen, letters in lower case.
pub open spec fn digit_char(d: int) -> char {
    if d < 10 {
        (48 + d) as char
    } else {
        (87 + d) as char
    }
}

/// `n` written in base `radix`.
pub open spec fn digits(n: nat, radix: nat) -> Seq<char>
    decreases n,
{
    if n < radix || radix < 2 {
        seq![digit_char(n as int)]
    } else {
        proof {
            lemma_quotient_smaller(n, radix);
        }
        digits(n / radix, radix).push(digit_char((n % radix) as int))
    }
}

/// Division by two or more makes a positive number smaller.
pub proof fn lemma_quotient_smaller(n: nat, radix: nat)
    by (nonlinear_arith)
    requires
        radix >= 2,
        n >= 1,
    ensures
        n / radix < n,
{
}

/// `v` in decimal, with a minus sign where it is negative.
pub open spec fn dec(v: int) -> Seq<char> {
    if v < 0 {
        seq!['-'] + digits((-v) as nat, 10)
    } else {
        digits(v as nat, 10)
    }
}

/// `s` with spaces in front, up to three characters in all.
pub open spec fn right3(s: Seq<char>) -> Seq<char> {
    if s.len() >= 3 {
        s
    } else if s.len() == 2 {
        seq![' '] + s
    } else if s.len() == 1 {
        seq![' ', ' '] + s
    } else {
        seq![' ', ' ', ' ']
    }
}

/// The 32 bits of `v` as an unsigned number.
pub open spec fn unsigned(v: i32) -> nat {
    if v < 0 {
        (v + 0x1_0000_0000) as nat
    } else {
        v as nat
    }
}

/// The bits of `v` in hexadecimal behind `0x`.
pub open spec fn hex(v: i32) -> Seq<char> {
    seq!['0', 'x'] + digits(unsigned(v), 16)
}

/// The bits of `v` in hexadecimal behind `0x`, at least two digits.
pub open spec fn hex_byte(v: i32) -> Seq<char> {
    if unsigned(v) < 16 {
        seq!['0', 'x', '0'] + digits(unsigned(v), 16)
    } else {
        hex(v)
    }
}

fn value_of(c: char) -> (d: i64)
    ensures
        d == digit_value(c),
        0 <= d <= 16,
{
    let u: u32 = c as u32;
    if 48 <= u && u <= 57 {
        u as i64 - 48
    } else if 97 <= u && u <= 102 {
        u as i64 - 87
    } else if 65 <= u && u <= 70 {
        u as i64 - 55
    } else {
        16
    }
}

/// More digits make no smaller number.
proof fn lemma_prefix_value(s: Seq<char>, n: int, radix: int)
    requires
        0 <= n <= s.len(),
        radix >= 2,
        all_digits(s, radix),
    ensures
        0 <= digits_value(s.take(n), radix) <= digits_value(s, radix),
    decreases s.len(),
{
    if s.len() == 0 {
        assert(s.take(n) == s);
    } else if n == s.len() {
        assert(s.take(n) == s);
        lemma_prefix_value(s.drop_last(), s.len() - 1, radix);
        assert(s.drop_last().take(s.len() - 1) == s.drop_last());
        assert(digit_value(s.last()) >= 0);
        assert(digits_value(s.drop_last(), radix) * radix >= 0) by (nonlinear_arith)
            requires
                digits_value(s.drop_last(), radix) >= 0,
                radix >= 2,
        ;
    } else {
        lemma_prefix_value(s.drop_last(), n, radix);
        assert(s.drop_last().take(n) == s.take(n));
        assert(digits_value(s.drop_last(), radix) * radix >= digits_value(s.drop_last(), radix))
            by (nonlinear_arith)
            requires
                digits_value(s.drop_last(), radix) >= 0,
                radix >= 2,
        ;
    }
}

fn parse_radix(v: &Vec<char>, radix: i64) -> (r: Option<i32>)
    requires
        2 <= radix <= 16,
    ensures
        r is Some == parse_int(v@, radix as int) is Some,
        r is Some ==> r->0 == parse_int(v@, radix as int)->0,
{
    let signed = v.len() > 0 && (v[0] == '-' || v[0] == '+');
    let neg = signed && v[0] == '-';
    let start: usize = if signed { 1 } else { 0 };
    let ghost ds = if signed {
        v@.skip(1)
    } else {
        v@
    };
    assert(ds == v@.skip(start as int));
    if v.len() == start {
        return None;
    }
    let mut acc: i64 = 0;
    let mut i: usize = start;
    assert(ds.take(0) == Seq::<char>::empty());
    while i < v.len()
        invariant
            2 <= radix <= 16,
            start <= i <= v@.len(),
            start <= 1,
            signed == (v@.len() > 0 && (v@[0] == '-' || v@[0] == '+')),
            start == (if signed { 1int } else { 0int }),
            ds == v@.skip(start as int),
            ds == (if signed { v@.skip(1) } else { v@ }),
            0 <= acc <= 2147483648,
            acc == digits_value(ds.take(i - start), radix as int),
            all_digits(ds.take(i - start), radix as int),
        decreases v@.len() - i,
    {
        let d = value_of(v[i]);
        let ghost k = i - start;
        assert(ds[k] == v@[i as int]);
        if d >= radix {
            assert(!(digit_value(ds[k]) < radix as int));
            return None;
        }
        assert(0 <= acc * radix <= 2147483648 * 16) by (nonlinear_arith)
            requires
                0 <= acc <= 2147483648,
                2 <= radix <= 16,
        ;
        acc = acc * radix + d;
        i += 1;
        proof {
            let t = ds.take(k + 1);
            assert(t.drop_last() == ds.take(k));
            assert(t.last() == ds[k]);
            assert forall|j: int| 0 <= j < t.len() implies #[trigger] digit_value(t[j])
                < radix as int by {
                if j < k {
                    assert(ds.take(k)[j] == t[j]);
                }
            }
        }
        if acc > 2147483648 {
            proof {
                if all_digits(ds, radix as int) {
                    lemma_prefix_value(ds, k + 1, radix as int);
                }
            }
            return None;
        }
    }
    assert(ds.take(ds.len() as int) == ds);
    if neg {
        Some((-acc) as i32)
    } else if acc <= 2147483647 {
        Some(acc as i32)
    } else {
        None
    }
}

/// The decimal integer that `s` writes, where it writes one that fits.
pub fn parse_i32(s: &str) -> (r: Option<i32>)
    ensures
        r is Some == parse_int(s@, 10) is Some,
        r is Some ==> r->0 == parse_int(s@, 10)->0,
{
    let v = chars_of(s);
    parse_radix(&v, 10)
}

/// The hexadecimal integer that `s` writes, where it writes one that fits.
pub fn parse_hex(s: &str) -> (r: Option<i32>)
    ensures
        r is Some == parse_int(s@, 16) is Some,
        r is Some ==> r->0 == parse_int(s@, 16)->0,
{
    let v = chars_of(s);
    parse_radix(&v, 16)
}

fn push_digits(s: &mut String, n: u64, radix: u64)
    requires
        2 <= radix <= 16,
    ensures
        final(s)@ == old(s)@ + digits(n as nat, radix as nat),
    decreases n,
{
    if n >= radix {
        proof {
            lemma_quotient_smaller(n as nat, radix as nat);
        }
        push_digits(s, n / radix, radix);
    }
    let d: u8 = (n % radix) as u8;
    if d < 10 {
        s.push((48 + d) as char);
    } else {
        s.push((87 + d) as char);
    }
    proof {
        if n < radix {
            assert(n % radix == n) by (nonlinear_arith)
                requires
                    n < radix,
                    radix >= 2,
            ;
        }
    }
}

/// Appends `v` in decimal.
pub fn push_dec(s: &mut String, v: i32)
    ensures
        final(s)@ == old(s)@ + dec(v as int),
{
    if v < 0 {
        s.push('-');
        push_digits(s, (-(v as i64)) as u64, 10);
        assert(s@ == old(s)@ + dec(v as int));
    } else {
        push_digits(s, v as u64, 10);
    }
}

/// `v` in decimal.
pub fn decimal(v: i32) -> (r: String)
    ensures
        r@ == dec(v as int),
{
    let mut s = String::new();
    push_dec(&mut s, v);
    s
}

/// A count in decimal.
pub fn decimal_count(n: usize) -> (r: String)
    ensures
        r@ == dec(n as int),
{
    let mut s = String::new();
    push_digits(&mut s, n as u64, 10);
    s
}

/// Appends `v` in decimal, right-aligned in three columns.
pub fn push_right3(s: &mut String, v: i32)
    ensures
        final(s)@ == old(s)@ + right3(dec(v as int)),
{
    let t = decimal(v);
    let n = t.as_str().unicode_len();
    if n == 2 {
        s.push(' ');
    } else if n == 1 {
        s.push(' ');
        s.push(' ');
    } else if n == 0 {
        s.push(' ');
        s.push(' ');
        s.push(' ');
    }
    s.append(t.as_str());
    assert(s@ == old(s)@ + right3(dec(v as int)));
}

fn bits_of(v: i32) -> (u: u64)
    ensures
        u == unsigned(v),
{
    if v < 0 {
        (v as i64 + 0x1_0000_0000) as u64
    } else {
        v as u64
    }
}

/// Appends the bits of `v` in hexadecimal behind `0x`.
pub fn push_hex(s: &mut String, v: i32)
    ensures
        final(s)@ == old(s)@ + hex(v),
{
    s.push('0');
    s.push('x');
    push_digits(s, bits_of(v), 16);
    assert(s@ == old(s)@ + hex(v));
}

/// Appends the bits of `v` in hexadecimal behind `0x`, at least two digits.
pub fn push_hex_byte(s: &mut String, v: i32)
    ensures
        final(s)@ == old(s)@ + hex_byte(v),
{
    s.push('0');
    s.push('x');
    let u = bits_of(v);
    if u < 16 {
        s.push('0');
    }
    push_digits(s, u, 16);
    assert(s@ == old(s)@ + hex_byte(v));
}

/// The digits of a number write that number.
pub proof fn lemma_digits_value(n: nat, radix: nat)
    requires
        2 <= radix <= 16,
    ensures
        digits(n, radix).len() > 0,
        all_digits(digits(n, radix), radix as int),
        digits_value(digits(n, radix), radix as int) == n,
    decreases n,
{
    let s = digits(n, radix);
    if n < radix {
        assert(s.drop_last() == Seq::<char>::empty());
        assert(digits_value(s.drop_last(), radix as int) == 0);
        assert(0 * radix == 0);
        assert(digit_value(digit_char(n as int)) == n);
    } else {
        lemma_quotient_smaller(n, radix);
        lemma_digits_value(n / radix, radix);
        let t = digits(n / radix, radix);
        assert(s.drop_last() == t);
        assert(0 <= n % radix < radix) by (nonlinear_arith)
            requires
                radix >= 2,
        ;
        assert(digit_value(digit_char((n % radix) as int)) == n % radix);
        assert((n / radix) * radix + n % radix == n) by (nonlinear_arith)
            requires
                radix >= 2,
        ;
        assert forall|i: int| 0 <= i < s.len() implies #[trigger] digit_value(s[i])
            < radix as int by {
            if i < t.len() {
                assert(s[i] == t[i]);
            }
        }
    }
}

/// Reading a written integer gives it back.
pub proof fn decimal_round_trip(v: i32)
    ensures
        parse_int(dec(v as int), 10) == Some(v as int),
{
    if v < 0 {
        let ds = digits((-v) as nat, 10);
        lemma_digits_value((-v) as nat, 10);
        assert(dec(v as int).skip(1) == ds);
    } else {
        let ds = digits(v as nat, 10);
        lemma_digits_value(v as nat, 10);
        assert(digit_value(ds[0]) < 10);
    }
}

/// The digits 0 to 9 and the letters a to f in either case have their usual values; every other
/// character has none below sixteen.
pub proof fn digits_have_values(c: char)
    ensures
        '0' <= c <= '9' ==> digit_value(c) == c as u32 - '0' as u32,
        'a' <= c <= 'f' ==> digit_value(c) == c as u32 - 'a' as u32 + 10,
        'A' <= c <= 'F' ==> digit_value(c) == c as u32 - 'A' as u32 + 10,
        !('0' <= c <= '9') && !('a' <= c <= 'f') && !('A' <= c <= 'F') ==> digit_value(c) >= 16,
{
}

/// A decimal number is written digit by digit: one more digit behind makes it ten times as large
/// and adds that digit, and a negative number is the positive one behind a minus sign.
pub proof fn decimal_is_positional(n: int, d: int)
    requires
        0 <= n,
        0 <= d <= 9,
    ensures
        dec(d) == seq![('0' as u32 + d) as char],
        n > 0 ==> dec(10 * n + d) == dec(n).push(('0' as u32 + d) as char),
        n > 0 ==> dec(-n) == seq!['-'] + dec(n),
{
    if n > 0 {
        let m = (10 * n + d) as nat;
        assert(m / 10 == n && m % 10 == d);
    }
}

/// Hexadecimal is written digit by digit too, behind `0x`, with small letters, and of a negative
/// number its 32 bits are written. Two digits at least are written where a byte is shown.
pub proof fn hex_is_positional(n: nat, d: nat, v: i32)
    requires
        d <= 15,
    ensures
        d <= 9 ==> digits(d, 16) == seq![('0' as u32 + d) as char],
        d > 9 ==> digits(d, 16) == seq![('a' as u32 + d - 10) as char],
        n > 0 ==> digits(16 * n + d, 16) == digits(n, 16) + digits(d, 16),
        v >= 0 ==> hex(v) == seq!['0', 'x'] + digits(v as nat, 16),
        v < 0 ==> hex(v) == seq!['0', 'x'] + digits((v + 0x1_0000_0000) as nat, 16),
        0 <= v < 16 ==> hex_byte(v) == seq!['0', 'x', '0'] + digits(v as nat, 16),
        !(0 <= v < 16) ==> hex_byte(v) == hex(v),
{
    if n > 0 {
        let m = (16 * n + d) as nat;
        assert(m / 16 == n && m % 16 == d);
        assert(digits(n, 16).push(digit_char(d as int)) == digits(n, 16) + digits(d, 16));
    }
}

/// Padding puts spaces in front, up to three columns, and cuts nothing off.
pub proof fn padding_is_in_front(s: Seq<char>)
    ensures
        right3(s).len() == if s.len() >= 3 {
            s.len()
        } else {
            3
        },
        right3(s).skip(right3(s).len() - s.len()) == s,
        forall|i: int| 0 <= i < right3(s).len() - s.len() ==> right3(s)[i] == ' ',
{
    assert(right3(s).skip(right3(s).len() - s.len()) == s);
}

/// A text of digits is read digit by digit: one more digit behind multiplies by the base and
/// adds the digit, away from zero. What does not fit, and what is no digit, makes no number.
pub proof fn parsing_is_positional(s: Seq<char>, c: char, radix: int)
    requires
        2 <= radix <= 16,
        parse_int(s, radix) is Some,
    ensures
        ({
            let v = parse_int(s, radix)->0;
            let d = digit_value(c);
            let w = if s[0] == '-' {
                v * radix - d
            } else {
                v * radix + d
            };
            &&& d >= radix ==> parse_int(s.push(c), radix) is None
            &&& d < radix && i32::MIN <= w <= i32::MAX ==> parse_int(s.push(c), radix) == Some(w)
            &&& d < radix && !(i32::MIN <= w <= i32::MAX) ==> parse_int(s.push(c), radix) is None
        }),
{
    let t = s.push(c);
    let signed = s[0] == '-' || s[0] == '+';
    let ds = if signed {
        s.skip(1)
    } else {
        s
    };
    assert(t[0] == s[0]);
    assert(t.skip(1) == s.skip(1).push(c));
    let es = ds.push(c);
    assert(es.drop_last() == ds);
    assert(es.last() == c);
    let x = digits_value(ds, radix);
    assert((-x) * radix == -(x * radix)) by (nonlinear_arith);
    if digit_value(c) < radix {
        assert forall|i: int| 0 <= i < es.len() implies #[trigger] digit_value(es[i]) < radix by {
            if i < ds.len() {
                assert(es[i] == ds[i]);
            }
        }
    } else {
        assert(digit_value(es[es.len() - 1]) >= radix);
    }
}

/// The shortest numbers are one digit, with or without a sign; nothing, or a sign alone, is none.
pub proof fn shortest_numbers(c: char, radix: int)
    requires
        2 <= radix <= 16,
        digit_value(c) < radix,
    ensures
        parse_int(Seq::empty(), radix) is None,
        parse_int(seq!['+'], radix) is None,
        parse_int(seq!['-'], radix) is None,
        parse_int(seq![c], radix) == Some(digit_value(c)),
        parse_int(seq!['+', c], radix) == Some(digit_value(c)),
        parse_int(seq!['-', c], radix) == Some(-digit_value(c)),
{
    let one = seq![c];
    assert(seq!['+'].skip(1) == Seq::<char>::empty());
    assert(seq!['-'].skip(1) == Seq::<char>::empty());
    assert(seq!['+', c].skip(1) == one);
    assert(seq!['-', c].skip(1) == one);
    assert(one.drop_last() == Seq::<char>::empty());
    assert(digits_value(one.drop_last(), radix) * radix == 0) by (nonlinear_arith)
        requires
            digits_value(one.drop_last(), radix) == 0,
    ;
    assert(digits_value(one, radix) == digit_value(c));
    assert(digit_value(one[0]) < radix);
}

/// A text that is no number, and more than a sign, does not become one by going on.
pub proof fn no_number_goes_on(s: Seq<char>, c: char, radix: int)
    requires
        2 <= radix <= 16,
        parse_int(s, radix) is None,
        s.len() > 1 || (s.len() == 1 && s[0] != '-' && s[0] != '+'),
    ensures
        parse_int(s.push(c), radix) is None,
{
    let t = s.push(c);
    let signed = s[0] == '-' || s[0] == '+';
    let ds = if signed {
        s.skip(1)
    } else {
        s
    };
    assert(t[0] == s[0]);
    assert(t.skip(1) == s.skip(1).push(c));
    let es = ds.push(c);
    assert(es.drop_last() == ds);
    assert(es.take(ds.len() as int) == ds);
    if all_digits(es, radix) {
        assert forall|i: int| 0 <= i < ds.len() implies #[trigger] digit_value(ds[i]) < radix by {
            assert(es[i] == ds[i]);
            assert(digit_value(es[i]) < radix);
        }
        lemma_prefix_value(es, ds.len() as int, radix);
    }
}

} // verus!
