//! Plain-text helpers: characters, whitespace, words.

use vstd::prelude::*;
use vstd::string::*;

verus! {

/// `String::push`: appends one character at the end and changes nothing else.
pub assume_specification[ String::push ](s: &mut String, c: char)
    ensures
        final(s)@ == old(s)@.push(c),
;

/// The characters of `s`, in order.
pub fn chars_of(s: &str) -> (v: Vec<char>)
    ensures
        v@ == s@,
{
    let mut v: Vec<char> = Vec::new();
    for c in it: s.chars()
        invariant
            it.seq() == s@,
            v@ == s@.take(it.index() as int),
    {
        v.push(c);
        assert(s@.take(it.index() + 1) == s@.take(it.index() as int).push(c));
    }
    assert(s@.take(s@.len() as int) == s@);
    v
}

/// The string made of the characters `v[from..to]`.
pub fn text_of(v: &Vec<char>, from: usize, to: usize) -> (s: String)
    requires
        from <= to <= v@.len(),
    ensures
        s@ == v@.subrange(from as int, to as int),
{
    let mut s = String::new();
    for i in from..to
        invariant
            from <= to <= v@.len(),
            s@ == v@.subrange(from as int, i as int),
    {
        s.push(v[i]);
    }
    s
}

/// Whether `a` and `b` hold the same characters.
pub fn same(a: &str, b: &str) -> (r: bool)
    ensures
        r == (a@ == b@),
{
    a.to_string() == b.to_string()
}

/// The characters with the Unicode property `White_Space`.
pub open spec fn is_white(c: char) -> bool {
    let u = c as u32;
    ||| 0x9 <= u <= 0xd
    ||| u == 0x20
    ||| u == 0x85
    ||| u == 0xa0
    ||| u == 0x1680
    ||| 0x2000 <= u <= 0x200a
    ||| u == 0x2028
    ||| u == 0x2029
    ||| u == 0x202f
    ||| u == 0x205f
    ||| u == 0x3000
}

/// Whether `c` is whitespace.
pub fn white(c: char) -> (b: bool)
    ensures
        b == is_white(c),
{
    let u: u32 = c as u32;
    (0x9 <= u && u <= 0xd) || u == 0x20 || u == 0x85 || u == 0xa0 || u == 0x1680
        || (0x2000 <= u && u <= 0x200a) || u == 0x2028 || u == 0x2029 || u == 0x202f
        || u == 0x205f || u == 0x3000
}

/// ASCII lower case of one character; every other character is kept.
pub open spec fn lower_char(c: char) -> char {
    if 'A' <= c <= 'Z' {
        (c as u32 + 32) as char
    } else {
        c
    }
}

/// ASCII lower case of a text.
pub open spec fn lower(s: Seq<char>) -> Seq<char> {
    s.map_values(|c: char| lower_char(c))
}

/// `s` with the letters A to Z in lower case.
pub fn ascii_lower(s: &str) -> (r: String)
    ensures
        r@ == lower(s@),
{
    let v = chars_of(s);
    let mut r = String::new();
    for i in 0..v.len()
        invariant
            v@ == s@,
            r@ == lower(s@.take(i as int)),
    {
        let c = v[i];
        assert(s@.take(i + 1) == s@.take(i as int).push(c));
        if 'A' <= c && c <= 'Z' {
            r.push((c as u8 + 32) as char);
        } else {
            r.push(c);
        }
        assert(r@ == lower(s@.take(i + 1)));
    }
    assert(s@.take(s@.len() as int) == s@);
    r
}

/// `s` without its leading whitespace.
pub open spec fn trim_start(s: Seq<char>) -> Seq<char>
    decreases s.len(),
{
    if s.len() > 0 && is_white(s[0]) {
        trim_start(s.skip(1))
    } else {
        s
    }
}

/// `s` without its trailing whitespace.
pub open spec fn trim_end(s: Seq<char>) -> Seq<char>
    decreases s.len(),
{
    if s.len() > 0 && is_white(s.last()) {
        trim_end(s.drop_last())
    } else {
        s
    }
}

/// `s` without whitespace at either end.
pub open spec fn trimmed(s: Seq<char>) -> Seq<char> {
    trim_end(trim_start(s))
}

/// How many characters of `s` stand before its first whitespace.
pub open spec fn word_len(s: Seq<char>) -> nat
    decreases s.len(),
{
    if s.len() == 0 || is_white(s[0]) {
        0
    } else {
        1 + word_len(s.skip(1))
    }
}

/// The words of `s`: its maximal runs without whitespace, in order.
pub open spec fn words(s: Seq<char>) -> Seq<Seq<char>>
    decreases s.len(),
{
    let t = trim_start(s);
    if t.len() == 0 {
        Seq::empty()
    } else {
        proof {
            lemma_trim_start(s);
            lemma_word_len(t);
        }
        seq![t.take(word_len(t) as int)] + words(t.skip(word_len(t) as int))
    }
}

/// What follows the first whitespace of `s`, trimmed; empty where there is none.
pub open spec fn after_word(s: Seq<char>) -> Seq<char> {
    if word_len(s) >= s.len() {
        Seq::empty()
    } else {
        trimmed(s.skip(word_len(s) as int + 1))
    }
}

/// The texts that the strings of a sequence hold.
pub open spec fn texts(v: Seq<String>) -> Seq<Seq<char>> {
    v.map_values(|s: String| s@)
}

/// Leading whitespace is cut off, and nothing else.
pub proof fn lemma_trim_start(s: Seq<char>)
    ensures
        trim_start(s).len() <= s.len(),
        trim_start(s) == s.skip(s.len() - trim_start(s).len()),
        trim_start(s).len() > 0 ==> !is_white(trim_start(s)[0]),
    decreases s.len(),
{
    if s.len() > 0 && is_white(s[0]) {
        lemma_trim_start(s.skip(1));
        let n = trim_start(s).len();
        assert(s.skip(1).skip(s.len() - 1 - n) == s.skip(s.len() - n));
    } else {
        assert(s.skip(0) == s);
    }
}

/// A word holds no whitespace and ends at whitespace or at the end.
pub proof fn lemma_word_len(s: Seq<char>)
    ensures
        word_len(s) <= s.len(),
        s.len() > 0 && !is_white(s[0]) ==> word_len(s) > 0,
        forall|i: int| 0 <= i < word_len(s) ==> !is_white(s[i]),
        word_len(s) < s.len() ==> is_white(s[word_len(s) as int]),
    decreases s.len(),
{
    if s.len() > 0 && !is_white(s[0]) {
        lemma_word_len(s.skip(1));
        assert forall|i: int| 0 <= i < word_len(s) implies !is_white(s[i]) by {
            if i > 0 {
                assert(s.skip(1)[i - 1] == s[i]);
            }
        }
    }
}

/// Leading whitespace ends where a character that is none stands.
proof fn lemma_trim_start_at(s: Seq<char>, n: int)
    requires
        0 <= n <= s.len(),
        forall|i: int| 0 <= i < n ==> is_white(s[i]),
        n < s.len() ==> !is_white(s[n]),
    ensures
        trim_start(s) == s.skip(n),
    decreases n,
{
    if n == 0 {
        assert(s.skip(0) == s);
    } else {
        lemma_trim_start_at(s.skip(1), n - 1);
        assert(s.skip(1).skip(n - 1) == s.skip(n));
    }
}

/// Trailing whitespace begins behind a character that is none.
proof fn lemma_trim_end_at(s: Seq<char>, n: int)
    requires
        0 <= n <= s.len(),
        forall|i: int| n <= i < s.len() ==> is_white(s[i]),
        n > 0 ==> !is_white(s[n - 1]),
    ensures
        trim_end(s) == s.take(n),
    decreases s.len() - n,
{
    if n == s.len() {
        assert(s.take(n) == s);
    } else {
        lemma_trim_end_at(s.drop_last(), n);
        assert(s.drop_last().take(n) == s.take(n));
    }
}

/// A word ends where whitespace stands.
proof fn lemma_word_len_at(s: Seq<char>, n: int)
    requires
        0 <= n <= s.len(),
        forall|i: int| 0 <= i < n ==> !is_white(s[i]),
        n < s.len() ==> is_white(s[n]),
    ensures
        word_len(s) == n,
    decreases n,
{
    if n > 0 {
        lemma_word_len_at(s.skip(1), n - 1);
    }
}

/// The first position in `v[from..]` that holds no whitespace, or the end.
fn skip_white(v: &Vec<char>, from: usize) -> (n: usize)
    requires
        from <= v@.len(),
    ensures
        from <= n <= v@.len(),
        v@.skip(n as int) == trim_start(v@.skip(from as int)),
        n < v@.len() ==> !is_white(v@[n as int]),
{
    let mut n: usize = from;
    while n < v.len() && white(v[n])
        invariant
            from <= n <= v@.len(),
            forall|i: int| from <= i < n ==> is_white(v@[i]),
        decreases v@.len() - n,
    {
        n += 1;
    }
    proof {
        lemma_trim_start_at(v@.skip(from as int), n - from);
        assert(v@.skip(from as int).skip(n - from) == v@.skip(n as int));
    }
    n
}

/// The first position in `v[from..]` that holds whitespace, or the end.
fn skip_word(v: &Vec<char>, from: usize) -> (n: usize)
    requires
        from <= v@.len(),
    ensures
        from <= n <= v@.len(),
        n - from == word_len(v@.skip(from as int)),
{
    let mut n: usize = from;
    while n < v.len() && !white(v[n])
        invariant
            from <= n <= v@.len(),
            forall|i: int| from <= i < n ==> !is_white(v@[i]),
        decreases v@.len() - n,
    {
        n += 1;
    }
    proof {
        lemma_word_len_at(v@.skip(from as int), n - from);
    }
    n
}

/// `v[from..]` without whitespace at either end.
fn trim_from(v: &Vec<char>, from: usize) -> (r: String)
    requires
        from <= v@.len(),
    ensures
        r@ == trimmed(v@.skip(from as int)),
{
    let a = skip_white(v, from);
    let mut b: usize = v.len();
    while b > a && white(v[b - 1])
        invariant
            a <= b <= v@.len(),
            forall|i: int| b <= i < v@.len() ==> is_white(v@[i]),
        decreases b - a,
    {
        b -= 1;
    }
    proof {
        let t = v@.skip(a as int);
        lemma_trim_end_at(t, b - a);
        assert(t.take(b - a) == v@.subrange(a as int, b as int));
    }
    text_of(v, a, b)
}

/// `s` without whitespace at either end.
pub fn trim(s: &str) -> (r: String)
    ensures
        r@ == trimmed(s@),
{
    let v = chars_of(s);
    assert(v@.skip(0) == s@);
    trim_from(&v, 0)
}

/// What follows the first whitespace of `s`, trimmed; empty where there is none.
pub fn rest_of(s: &str) -> (r: String)
    ensures
        r@ == after_word(s@),
{
    let v = chars_of(s);
    assert(v@.skip(0) == s@);
    let n = skip_word(&v, 0);
    if n < v.len() {
        trim_from(&v, n + 1)
    } else {
        String::new()
    }
}

/// The words of `s`, in order.
pub fn split_words(s: &str) -> (r: Vec<String>)
    ensures
        texts(r@) == words(s@),
{
    let v = chars_of(s);
    let mut r: Vec<String> = Vec::new();
    let mut from: usize = 0;
    assert(v@.skip(0) == s@);
    loop
        invariant
            v@ == s@,
            from <= v@.len(),
            texts(r@) + words(v@.skip(from as int)) == words(s@),
        ensures
            texts(r@) == words(s@),
        decreases v@.len() - from,
    {
        let a = skip_white(&v, from);
        if a == v.len() {
            assert(words(v@.skip(from as int)) == Seq::<Seq<char>>::empty());
            assert(texts(r@) + Seq::<Seq<char>>::empty() == texts(r@));
            break;
        }
        let b = skip_word(&v, a);
        let ghost t = v@.skip(a as int);
        let ghost before = texts(r@);
        proof {
            lemma_word_len(t);
            assert(t[0] == v@[a as int]);
            assert(t.take(b - a) == v@.subrange(a as int, b as int));
            assert(t.skip(b - a) == v@.skip(b as int));
        }
        r.push(text_of(&v, a, b));
        proof {
            let w = v@.subrange(a as int, b as int);
            assert(texts(r@) == before.push(w));
            assert(before + (seq![w] + words(v@.skip(b as int))) == before.push(w) + words(
                v@.skip(b as int),
            ));
        }
        from = b;
    }
    r
}

/// The words of a text depend on what follows its leading whitespace alone.
proof fn lemma_words_trim(a: Seq<char>, b: Seq<char>)
    requires
        trim_start(a) == trim_start(b),
    ensures
        words(a) == words(b),
{
}

proof fn lemma_trim_start_push(s: Seq<char>, c: char)
    requires
        is_white(c),
    ensures
        trim_start(s.push(c)) == if trim_start(s).len() > 0 {
            trim_start(s).push(c)
        } else {
            Seq::empty()
        },
    decreases s.len(),
{
    if s.len() > 0 && is_white(s[0]) {
        assert(s.push(c).skip(1) == s.skip(1).push(c));
        lemma_trim_start_push(s.skip(1), c);
    } else if s.len() == 0 {
        assert(s.push(c).skip(1) == Seq::<char>::empty());
        assert(trim_start(s.push(c)) == trim_start(Seq::<char>::empty()));
    }
}

/// Whitespace at the end of a text changes neither its words nor what is left when it is
/// trimmed.
pub proof fn trailing_white_is_ignored(s: Seq<char>, c: char)
    requires
        is_white(c),
    ensures
        words(s.push(c)) == words(s),
        trimmed(s.push(c)) == trimmed(s),
    decreases s.len(),
{
    let t = trim_start(s);
    lemma_trim_start(s);
    lemma_trim_start_push(s, c);
    if t.len() > 0 {
        let n = word_len(t) as int;
        lemma_word_len(t);
        assert(t.push(c).drop_last() == t);
        lemma_word_len_at(t.push(c), n);
        assert(t.push(c).take(n) == t.take(n));
        assert(t.push(c).skip(n) == t.skip(n).push(c));
        trailing_white_is_ignored(t.skip(n), c);
    }
}

/// A line of a command word, whitespace and an argument splits into the word and the words of
/// the argument, and the argument is what follows the word.
pub proof fn command_splits(word: Seq<char>, c: char, arg: Seq<char>)
    requires
        word.len() > 0,
        forall|i: int| 0 <= i < word.len() ==> !is_white(word[i]),
        is_white(c),
    ensures
        words(word.push(c) + arg) == seq![word] + words(arg),
        after_word(word.push(c) + arg) == trimmed(arg),
        words(word) == seq![word],
        after_word(word) == Seq::<char>::empty(),
{
    let line = word.push(c) + arg;
    let n = word.len() as int;
    assert(line[0] == word[0]);
    assert(trim_start(line) == line);
    lemma_word_len_at(line, n);
    assert(line.take(n) == word);
    assert(line.skip(n).skip(1) == arg);
    assert(line.skip(n + 1) == arg);
    lemma_words_trim(line.skip(n), arg);
    assert(trim_start(word) == word);
    lemma_word_len_at(word, n);
    assert(word.take(n) == word);
    assert(word.skip(n) == Seq::<char>::empty());
    assert(words(Seq::<char>::empty()) == Seq::<Seq<char>>::empty());
    assert(seq![word] + Seq::<Seq<char>>::empty() == seq![word]);
}

/// Lower case keeps every character but the letters A to Z, which move up by 32.
pub proof fn lower_moves_capitals(s: Seq<char>)
    ensures
        lower(s).len() == s.len(),
        forall|i: int|
            0 <= i < s.len() && 65 <= s[i] as u32 <= 90 ==> #[trigger] lower(s)[i] as u32
                == s[i] as u32 + 32,
        forall|i: int|
            0 <= i < s.len() && !(65 <= s[i] as u32 <= 90) ==> #[trigger] lower(s)[i] == s[i],
{
}

proof fn lemma_trim_end(s: Seq<char>)
    ensures
        trim_end(s).len() <= s.len(),
        trim_end(s) == s.take(trim_end(s).len() as int),
        forall|i: int| trim_end(s).len() <= i < s.len() ==> is_white(s[i]),
        trim_end(s).len() > 0 ==> !is_white(s[trim_end(s).len() - 1]),
    decreases s.len(),
{
    if s.len() > 0 && is_white(s.last()) {
        lemma_trim_end(s.drop_last());
        let n = trim_end(s).len() as int;
        assert(s.drop_last().take(n) == s.take(n));
        assert forall|i: int| n <= i < s.len() implies is_white(s[i]) by {
            if i < s.len() - 1 {
                assert(s.drop_last()[i] == s[i]);
            }
        }
    } else {
        assert(s.take(s.len() as int) == s);
    }
}

proof fn lemma_trim_start_white(s: Seq<char>)
    ensures
        forall|i: int| 0 <= i < s.len() - trim_start(s).len() ==> is_white(s[i]),
    decreases s.len(),
{
    if s.len() > 0 && is_white(s[0]) {
        lemma_trim_start(s.skip(1));
        lemma_trim_start_white(s.skip(1));
        assert forall|i: int| 0 <= i < s.len() - trim_start(s).len() implies is_white(s[i]) by {
            if i > 0 {
                assert(s.skip(1)[i - 1] == s[i]);
            }
        }
    }
}

/// Trimming takes a piece out of a text: whitespace alone is left out, and the piece neither
/// begins nor ends with whitespace.
pub proof fn trimming_leaves_out_white(s: Seq<char>)
    ensures
        exists|a: int, b: int|
            #![trigger s.subrange(a, b)]
            0 <= a <= b <= s.len() && trimmed(s) == s.subrange(a, b) && (forall|i: int|
                0 <= i < a || b <= i < s.len() ==> is_white(s[i])) && (a < b ==> !is_white(s[a])
                && !is_white(s[b - 1])),
{
    lemma_trim_start(s);
    lemma_trim_start_white(s);
    let t = trim_start(s);
    let a = s.len() - t.len();
    lemma_trim_end(t);
    let n = trim_end(t).len() as int;
    assert(t.take(n) == s.subrange(a, a + n));
    assert forall|i: int| 0 <= i < a || a + n <= i < s.len() implies is_white(s[i]) by {
        if i >= a + n {
            assert(t[i - a] == s[i]);
        }
    }
    if n > 0 {
        assert(t[0] == s[a]);
        assert(t[n - 1] == s[a + n - 1]);
    }
}

/// Leading whitespace makes no word, and what follows one whitespace at the very front is the
/// whole of the rest.
pub proof fn leading_white_makes_no_word(c: char, s: Seq<char>)
    requires
        is_white(c),
    ensures
        words(seq![c] + s) == words(s),
        after_word(seq![c] + s) == trimmed(s),
{
    let t = seq![c] + s;
    assert(t.skip(1) == s);
    lemma_words_trim(t, s);
}

/// Whitespace alone has no words, and an empty text has none either.
pub proof fn white_has_no_words(s: Seq<char>)
    requires
        forall|i: int| 0 <= i < s.len() ==> is_white(s[i]),
    ensures
        words(s).len() == 0,
        trimmed(s).len() == 0,
        after_word(s).len() == 0,
    decreases s.len(),
{
    lemma_trim_start_at(s, s.len() as int);
    if s.len() > 0 {
        let t = s.skip(1);
        assert forall|i: int| 0 <= i < t.len() implies is_white(t[i]) by {
            assert(t[i] == s[i + 1]);
        }
        white_has_no_words(t);
    }
}

/// No word holds whitespace, and none is empty.
pub proof fn words_hold_no_white(s: Seq<char>, k: int)
    requires
        0 <= k < words(s).len(),
    ensures
        words(s)[k].len() > 0,
        forall|i: int| 0 <= i < words(s)[k].len() ==> !is_white(words(s)[k][i]),
    decreases s.len(),
{
    let t = trim_start(s);
    lemma_trim_start(s);
    lemma_word_len(t);
    let n = word_len(t) as int;
    if k > 0 {
        words_hold_no_white(t.skip(n), k - 1);
    } else {
        assert(words(s)[0] == t.take(n));
    }
}

/// The texts of strings stand where the strings do.
pub proof fn texts_keep_their_order(v: Seq<String>, i: int)
    requires
        0 <= i < v.len(),
    ensures
        texts(v).len() == v.len(),
        texts(v)[i] == v[i]@,
{
}

} // verus!
