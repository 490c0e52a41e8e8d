//! Text helpers shared by the library: decimal rendering and parsing of
//! integers, splitting on a separator, the float syntax accepted by `str::parse`,
//! and building `String`s from characters.

use vstd::prelude::*;

verus! {

broadcast use vstd::string::group_string_axioms;

// ---------------------------------------------------------------------------
// Building strings
// ---------------------------------------------------------------------------

/// Appends one character to a string (`String::push`).
#[verifier::external_body]
pub(crate) fn push_char(s: &mut String, c: char)
    ensures
        final(s)@ == old(s)@.push(c),
{
    s.push(c)
}

/// The characters of `s`, in order.
pub fn chars_of(s: &str) -> (r: Vec<char>)
    ensures
        r@ == s@,
{
    let mut r: Vec<char> = Vec::new();
    for c in it: s.chars()
        invariant
            r@ == it.seq().take(it.index() as int),
            it.seq() == s@,
    {
        r.push(c);
    }
    r
}

/// The string made of the characters of `v`.
pub fn string_from_chars(v: &Vec<char>) -> (s: String)
    ensures
        s@ == v@,
{
    let mut s = String::new();
    let mut i: usize = 0;
    while i < v.len()
        invariant
            i <= v.len(),
            s@ == v@.take(i as int),
        decreases v.len() - i,
    {
        push_char(&mut s, v[i]);
        assert(v@.take(i + 1) =~= v@.take(i as int).push(v@[i as int]));
        i += 1;
    }
    assert(v@.take(v.len() as int) =~= v@);
    s
}

/// Appends the characters of `v` to `s`.
pub fn push_chars(s: &mut String, v: &Vec<char>)
    ensures
        final(s)@ == old(s)@ + v@,
{
    let mut i: usize = 0;
    while i < v.len()
        invariant
            i <= v.len(),
            s@ == old(s)@ + v@.take(i as int),
        decreases v.len() - i,
    {
        push_char(s, v[i]);
        assert(old(s)@ + v@.take(i + 1) =~= (old(s)@ + v@.take(i as int)).push(v@[i as int]));
        i += 1;
    }
    assert(v@.take(v.len() as int) =~= v@);
}

/// Appends the characters of `t` to `s`.
pub fn push_str(s: &mut String, t: &str)
    ensures
        final(s)@ == old(s)@ + t@,
{
    let v = chars_of(t);
    push_chars(s, &v);
}

/// `a` followed by `b`.
pub fn concat2(a: &str, b: &str) -> (r: String)
    ensures
        r@ == a@ + b@,
{
    let mut r = String::new();
    push_str(&mut r, a);
    push_str(&mut r, b);
    assert(r@ =~= a@ + b@);
    r
}

/// `a`, `b` and `c` one after the other.
pub fn concat3(a: &str, b: &str, c: &str) -> (r: String)
    ensures
        r@ == a@ + b@ + c@,
{
    let mut r = String::new();
    push_str(&mut r, a);
    push_str(&mut r, b);
    push_str(&mut r, c);
    assert(r@ =~= a@ + b@ + c@);
    r
}

/// Whether two strings hold the same characters.
pub fn str_eq(a: &str, b: &str) -> (r: bool)
    ensures
        r == (a@ == b@),
{
    let va = chars_of(a);
    let vb = chars_of(b);
    chars_eq(&va, &vb)
}

/// Whether two character vectors are equal.
pub fn chars_eq(a: &Vec<char>, b: &Vec<char>) -> (r: bool)
    ensures
        r == (a@ == b@),
{
    if a.len() != b.len() {
        return false;
    }
    let mut i: usize = 0;
    while i < a.len()
        invariant
            a.len() == b.len(),
            i <= a.len(),
            forall|j: int| 0 <= j < i ==> a@[j] == b@[j],
        decreases a.len() - i,
    {
        if a[i] != b[i] {
            return false;
        }
        i += 1;
    }
    assert(a@ =~= b@);
    true
}

// ---------------------------------------------------------------------------
// Decimal digits
// ---------------------------------------------------------------------------

/// The ASCII digit for `d` in `0..10`.
pub open spec fn digit_char(d: int) -> char {
    if d == 0 {
        '0'
    } else if d == 1 {
        '1'
    } else if d == 2 {
        '2'
    } else if d == 3 {
        '3'
    } else if d == 4 {
        '4'
    } else if d == 5 {
        '5'
    } else if d == 6 {
        '6'
    } else if d == 7 {
        '7'
    } else if d == 8 {
        '8'
    } else {
        '9'
    }
}

/// An ASCII decimal digit.
pub open spec fn is_digit(c: char) -> bool {
    '0' <= c && c <= '9'
}

/// The value of an ASCII decimal digit.
pub open spec fn digit_value(c: char) -> int {
    (c as int) - ('0' as int)
}

/// Every character is an ASCII digit.
pub open spec fn all_digits(s: Seq<char>) -> bool {
    forall|i: int| 0 <= i < s.len() ==> is_digit(#[trigger] s[i])
}

/// The decimal digits of `n`, most significant first, without leading zeros.
pub open spec fn decimal_digits(n: nat) -> Seq<char>
    decreases n,
{
    if n < 10 {
        seq![digit_char(n as int)]
    } else {
        decimal_digits(n / 10).push(digit_char((n % 10) as int))
    }
}

/// The decimal text of an integer, as `Display` writes it: an optional `-`
/// followed by the digits of its magnitude.
pub open spec fn decimal_text(n: int) -> Seq<char> {
    if n < 0 {
        seq!['-'] + decimal_digits((-n) as nat)
    } else {
        decimal_digits(n as nat)
    }
}

/// The value of a string of decimal digits, most significant first.
pub open spec fn digits_value(s: Seq<char>) -> nat
    decreases s.len(),
{
    if s.len() == 0 {
        0
    } else {
        let d = digit_value(s.last());
        (digits_value(s.drop_last()) * 10 + (if d < 0 { 0 } else { d })) as nat
    }
}

fn digit_to_char(d: u64) -> (c: char)
    requires
        d < 10,
    ensures
        c == digit_char(d as int),
{
    if d == 0 {
        '0'
    } else if d == 1 {
        '1'
    } else if d == 2 {
        '2'
    } else if d == 3 {
        '3'
    } else if d == 4 {
        '4'
    } else if d == 5 {
        '5'
    } else if d == 6 {
        '6'
    } else if d == 7 {
        '7'
    } else if d == 8 {
        '8'
    } else {
        '9'
    }
}

/// The decimal digits of `n`.
pub fn u64_digits(n: u64) -> (r: Vec<char>)
    ensures
        r@ == decimal_digits(n as nat),
{
    let mut m = n;
    let mut out: Vec<char> = Vec::new();
    while m >= 10
        invariant
            decimal_digits(n as nat) == decimal_digits(m as nat) + out@,
        decreases m,
    {
        let d = digit_to_char(m % 10);
        let ghost prev = out@;
        out.insert(0, d);
        assert(decimal_digits(m as nat) == decimal_digits((m / 10) as nat).push(d));
        assert(decimal_digits((m / 10) as nat).push(d) + prev =~= decimal_digits((m / 10) as nat)
            + out@);
        m = m / 10;
    }
    let d = digit_to_char(m);
    out.insert(0, d);
    assert(decimal_digits(m as nat) == seq![d]);
    assert(out@ =~= seq![d] + (out@.subrange(1, out@.len() as int)));
    out
}

/// The decimal text of an unsigned integer.
pub fn u64_text(n: u64) -> (s: String)
    ensures
        s@ == decimal_text(n as int),
{
    let v = u64_digits(n);
    string_from_chars(&v)
}

/// The decimal text of a signed integer, as `Display` writes it.
pub fn i64_text(n: i64) -> (s: String)
    ensures
        s@ == decimal_text(n as int),
{
    if n < 0 {
        let mag: u64 = (0i128 - n as i128) as u64;
        let v = u64_digits(mag);
        let mut s = String::new();
        push_char(&mut s, '-');
        push_chars(&mut s, &v);
        assert(s@ =~= seq!['-'] + decimal_digits(mag as nat));
        s
    } else {
        u64_text(n as u64)
    }
}

proof fn lemma_digit_char(d: int)
    requires
        0 <= d < 10,
    ensures
        is_digit(digit_char(d)),
        digit_value(digit_char(d)) == d,
        digit_char(d) != '_',
        digit_char(d) != '-',
        digit_char(d) != '+',
{
}

/// The digits of a number are digits, there is at least one, and they read
/// back as the number.
pub proof fn lemma_decimal_digits(n: nat)
    ensures
        decimal_digits(n).len() >= 1,
        all_digits(decimal_digits(n)),
        digits_value(decimal_digits(n)) == n,
    decreases n,
{
    if n < 10 {
        lemma_digit_char(n as int);
        let s = decimal_digits(n);
        assert(s.drop_last() =~= Seq::<char>::empty());
        assert(digits_value(s.drop_last()) == 0);
        assert(s.last() == digit_char(n as int));
        assert(digits_value(s) == n);
    } else {
        lemma_decimal_digits(n / 10);
        lemma_digit_char((n % 10) as int);
        let s = decimal_digits(n);
        assert(s.drop_last() =~= decimal_digits(n / 10));
        assert(s.last() == digit_char((n % 10) as int));
        assert(digits_value(s) == digits_value(decimal_digits(n / 10)) * 10 + (n % 10));
        assert((n / 10) * 10 + n % 10 == n);
        assert(all_digits(s)) by {
            assert forall|i: int| 0 <= i < s.len() implies is_digit(#[trigger] s[i]) by {
                if i < s.len() - 1 {
                    assert(s[i] == decimal_digits(n / 10)[i]);
                }
            }
        }
    }
}

// ---------------------------------------------------------------------------
// Integer parsing (`str::parse::<i32>` / `str::parse::<i64>`)
// ---------------------------------------------------------------------------

/// The integer that `str::parse` reads from `s`, before the range check: an
/// optional `+` or `-` followed by one or more ASCII digits, nothing else.
pub open spec fn parsed_integer(s: Seq<char>) -> Option<int> {
    if s.len() > 0 && (s[0] == '+' || s[0] == '-') {
        let rest = s.skip(1);
        if rest.len() > 0 && all_digits(rest) {
            if s[0] == '-' {
                Some(-(digits_value(rest) as int))
            } else {
                Some(digits_value(rest) as int)
            }
        } else {
            None
        }
    } else if s.len() > 0 && all_digits(s) {
        Some(digits_value(s) as int)
    } else {
        None
    }
}

/// What `s.parse::<i64>()` gives, `None` standing for the error.
pub open spec fn parsed_i64(s: Seq<char>) -> Option<i64> {
    match parsed_integer(s) {
        Some(v) => if i64::MIN <= v <= i64::MAX {
            Some(v as i64)
        } else {
            None
        },
        None => None,
    }
}

/// What `s.parse::<i32>()` gives, `None` standing for the error.
pub open spec fn parsed_i32(s: Seq<char>) -> Option<i32> {
    match parsed_integer(s) {
        Some(v) => if i32::MIN <= v <= i32::MAX {
            Some(v as i32)
        } else {
            None
        },
        None => None,
    }
}

spec fn capped(v: int) -> int {
    if v < 0x1_0000_0000_0000_0000 {
        v
    } else {
        0x1_0000_0000_0000_0000
    }
}

/// Reads the digits `s[start..]`: whether they are all digits and at least
/// one, and their value capped at 2^64.
fn read_digits(s: &Vec<char>, start: usize) -> (r: (bool, u128))
    requires
        start <= s.len(),
    ensures
        r.0 == (s@.skip(start as int).len() > 0 && all_digits(s@.skip(start as int))),
        r.0 ==> r.1 == capped(digits_value(s@.skip(start as int)) as int),
{
    let ghost tail = s@.skip(start as int);
    if start >= s.len() {
        return (false, 0);
    }
    let mut acc: u128 = 0;
    let mut i: usize = start;
    while i < s.len()
        invariant
            start <= i <= s.len(),
            tail == s@.skip(start as int),
            all_digits(s@.subrange(start as int, i as int)),
            acc == capped(digits_value(s@.subrange(start as int, i as int)) as int),
        decreases s.len() - i,
    {
        let c = s[i];
        if !('0' <= c && c <= '9') {
            assert(!is_digit(tail[i - start]));
            return (false, 0);
        }
        let d: u128 = (c as u32 - '0' as u32) as u128;
        let ghost pre = s@.subrange(start as int, i as int);
        let ghost post = s@.subrange(start as int, i + 1);
        assert(post.drop_last() =~= pre);
        assert(digits_value(post) == digits_value(pre) * 10 + d);
        if acc >= 0x1_0000_0000_0000_0000 {
            acc = 0x1_0000_0000_0000_0000;
        } else {
            acc = acc * 10 + d;
            if acc >= 0x1_0000_0000_0000_0000 {
                acc = 0x1_0000_0000_0000_0000;
            }
        }
        assert(all_digits(post)) by {
            assert forall|j: int| 0 <= j < post.len() implies is_digit(#[trigger] post[j]) by {
                if j < pre.len() {
                    assert(post[j] == pre[j]);
                }
            }
        }
        i += 1;
    }
    assert(s@.subrange(start as int, s.len() as int) =~= tail);
    (true, acc)
}

/// `s.parse::<i64>()`, with `None` for the error.
pub fn parse_i64(s: &Vec<char>) -> (r: Option<i64>)
    ensures
        r == parsed_i64(s@),
{
    if s.len() > 0 && (s[0] == '+' || s[0] == '-') {
        let (ok, mag) = read_digits(s, 1);
        if !ok {
            return None;
        }
        if s[0] == '-' {
            if mag <= 0x8000_0000_0000_0000 {
                Some((0i128 - mag as i128) as i64)
            } else {
                None
            }
        } else {
            if mag <= 0x7fff_ffff_ffff_ffff {
                Some(mag as i64)
            } else {
                None
            }
        }
    } else {
        let (ok, mag) = read_digits(s, 0);
        assert(s@.skip(0) =~= s@);
        if !ok {
            return None;
        }
        if mag <= 0x7fff_ffff_ffff_ffff {
            Some(mag as i64)
        } else {
            None
        }
    }
}

/// `s.parse::<i32>()`, with `None` for the error.
pub fn parse_i32(s: &Vec<char>) -> (r: Option<i32>)
    ensures
        r == parsed_i32(s@),
{
    match parse_i64(s) {
        Some(v) => {
            if -0x8000_0000 <= v && v <= 0x7fff_ffff {
                Some(v as i32)
            } else {
                None
            }
        },
        None => {
            proof {
                if parsed_integer(s@) is Some {
                    let v = parsed_integer(s@)->0;
                    assert(!(i64::MIN <= v <= i64::MAX));
                }
            }
            None
        },
    }
}

// ---------------------------------------------------------------------------
// Splitting (`str::split` on one character)
// ---------------------------------------------------------------------------

/// The pieces of `s` between occurrences of `sep`, as `str::split(sep)`
/// yields them; there is always at least one piece.
pub open spec fn split_on(s: Seq<char>, sep: char) -> Seq<Seq<char>>
    decreases s.len(),
{
    if s.len() == 0 {
        seq![Seq::empty()]
    } else {
        let prev = split_on(s.drop_last(), sep);
        if s.last() == sep {
            prev.push(Seq::empty())
        } else {
            prev.update(prev.len() - 1, prev.last().push(s.last()))
        }
    }
}

/// Splitting always gives at least one piece.
pub proof fn lemma_split_on_len(s: Seq<char>, sep: char)
    ensures
        split_on(s, sep).len() >= 1,
    decreases s.len(),
{
    if s.len() > 0 {
        lemma_split_on_len(s.drop_last(), sep);
    }
}

/// Appending text without the separator extends the last piece.
pub proof fn lemma_split_append_plain(s: Seq<char>, t: Seq<char>, sep: char)
    requires
        !t.contains(sep),
    ensures
        split_on(s + t, sep).len() == split_on(s, sep).len(),
        split_on(s + t, sep) == split_on(s, sep).update(
            split_on(s, sep).len() - 1,
            split_on(s, sep).last() + t,
        ),
    decreases t.len(),
{
    lemma_split_on_len(s, sep);
    if t.len() == 0 {
        assert(s + t =~= s);
        assert(split_on(s, sep).last() + t =~= split_on(s, sep).last());
        assert(split_on(s, sep).update(split_on(s, sep).len() - 1, split_on(s, sep).last())
            =~= split_on(s, sep));
    } else {
        let t0 = t.drop_last();
        assert(!t0.contains(sep)) by {
            if t0.contains(sep) {
                let i = choose|i: int| 0 <= i < t0.len() && t0[i] == sep;
                assert(t[i] == sep);
            }
        }
        assert(t.last() != sep) by {
            assert(t[t.len() - 1] == t.last());
        }
        lemma_split_append_plain(s, t0, sep);
        assert((s + t).drop_last() =~= s + t0);
        assert((s + t).last() == t.last());
        let prev = split_on(s + t0, sep);
        lemma_split_on_len(s + t0, sep);
        assert(prev.last() =~= split_on(s, sep).last() + t0);
        assert(prev.last().push(t.last()) =~= split_on(s, sep).last() + t);
        assert(split_on(s + t, sep) =~= split_on(s, sep).update(
            split_on(s, sep).len() - 1,
            split_on(s, sep).last() + t,
        ));
    }
}

/// Text without the separator is one piece; followed by the separator and
/// more text without it, two pieces.
pub proof fn lemma_split_two(a: Seq<char>, b: Seq<char>, sep: char)
    requires
        !a.contains(sep),
        !b.contains(sep),
    ensures
        split_on(a, sep) == seq![a],
        split_on(a + seq![sep] + b, sep) == seq![a, b],
{
    lemma_split_append_plain(Seq::empty(), a, sep);
    assert(Seq::<char>::empty() + a =~= a);
    assert(split_on(Seq::<char>::empty(), sep) == seq![Seq::<char>::empty()]);
    assert(split_on(a, sep) =~= seq![a]);
    let a1 = a + seq![sep];
    assert(a1.drop_last() =~= a);
    assert(a1.last() == sep);
    assert(split_on(a1, sep) =~= seq![a, Seq::<char>::empty()]);
    lemma_split_append_plain(a1, b, sep);
    assert(Seq::<char>::empty() + b =~= b);
    assert(split_on(a1 + b, sep) =~= seq![a, b]);
}

/// Three pieces without the separator, joined by it, split back into the
/// three.
pub proof fn lemma_split_three(a: Seq<char>, b: Seq<char>, c: Seq<char>, sep: char)
    requires
        !a.contains(sep),
        !b.contains(sep),
        !c.contains(sep),
    ensures
        split_on(a + seq![sep] + b + seq![sep] + c, sep) == seq![a, b, c],
{
    lemma_split_two(a, b, sep);
    let x = a + seq![sep] + b;
    let x1 = x + seq![sep];
    assert(x1.drop_last() =~= x);
    assert(x1.last() == sep);
    assert(split_on(x1, sep) =~= seq![a, b, Seq::<char>::empty()]);
    lemma_split_append_plain(x1, c, sep);
    assert(Seq::<char>::empty() + c =~= c);
    assert(split_on(x1 + c, sep) =~= seq![a, b, c]);
}

/// The text of a number has no underscore and reads back as the number.
pub proof fn lemma_decimal_text_reads_back(n: int)
    ensures
        parsed_integer(decimal_text(n)) == Some(n),
        !decimal_text(n).contains('_'),
{
    let m: nat = if n < 0 { (-n) as nat } else { n as nat };
    lemma_decimal_digits(m);
    let digits = decimal_digits(m);
    let d = decimal_text(n);
    assert(is_digit(digits[0]));
    if n < 0 {
        assert(d.skip(1) =~= digits);
        assert(d[0] == '-');
    }
    assert(!d.contains('_')) by {
        if d.contains('_') {
            let i = choose|i: int| 0 <= i < d.len() && d[i] == '_';
            if n < 0 {
                if i > 0 {
                    assert(d[i] == digits[i - 1]);
                    assert(is_digit(digits[i - 1]));
                }
            } else {
                assert(is_digit(d[i]));
            }
        }
    }
}

/// Whether no character of `s` is `sep`, checked from the end.
pub open spec fn free_of(s: Seq<char>, sep: char) -> bool
    decreases s.len(),
{
    s.len() == 0 || (s.last() != sep && free_of(s.drop_last(), sep))
}

/// A text free of the separator does not contain it.
pub proof fn lemma_free_of(s: Seq<char>, sep: char)
    requires
        free_of(s, sep),
    ensures
        !s.contains(sep),
    decreases s.len(),
{
    if s.len() > 0 {
        lemma_free_of(s.drop_last(), sep);
        if s.contains(sep) {
            let i = choose|i: int| 0 <= i < s.len() && s[i] == sep;
            if i < s.len() - 1 {
                assert(s.drop_last()[i] == sep);
            }
        }
    }
}

/// The pieces of `s` between occurrences of `sep`.
pub fn split_chars(s: &Vec<char>, sep: char) -> (r: Vec<Vec<char>>)
    ensures
        r@.len() == split_on(s@, sep).len(),
        forall|i: int| 0 <= i < r@.len() ==> #[trigger] r@[i]@ == split_on(s@, sep)[i],
{
    let mut parts: Vec<Vec<char>> = Vec::new();
    let mut cur: Vec<char> = Vec::new();
    let mut i: usize = 0;
    while i < s.len()
        invariant
            i <= s.len(),
            split_on(s@.take(i as int), sep).len() == parts@.len() + 1,
            forall|j: int|
                0 <= j < parts@.len() ==> #[trigger] parts@[j]@ == split_on(
                    s@.take(i as int),
                    sep,
                )[j],
            cur@ == split_on(s@.take(i as int), sep).last(),
        decreases s.len() - i,
    {
        let c = s[i];
        let ghost pre = s@.take(i as int);
        let ghost post = s@.take(i + 1);
        assert(post.drop_last() =~= pre);
        assert(post.last() == c);
        proof {
            lemma_split_on_len(pre, sep);
        }
        if c == sep {
            parts.push(cur);
            cur = Vec::new();
            assert(split_on(post, sep) == split_on(pre, sep).push(Seq::empty()));
        } else {
            cur.push(c);
        }
        i += 1;
    }
    assert(s@.take(s.len() as int) =~= s@);
    parts.push(cur);
    parts
}

// ---------------------------------------------------------------------------
// The float syntax of `str::parse::<f64>`
// ---------------------------------------------------------------------------

pub open spec fn is_sign(c: char) -> bool {
    c == '+' || c == '-'
}

/// ASCII lower case of a character.
pub open spec fn ascii_lower(c: char) -> char {
    if 'A' <= c && c <= 'Z' {
        ((c as int) + 32) as char
    } else {
        c
    }
}

/// `Digit+ | Digit+ '.' Digit* | Digit* '.' Digit+`: digits and at most one
/// dot, with at least one digit.
pub open spec fn is_mantissa(m: Seq<char>) -> bool {
    &&& forall|i: int| 0 <= i < m.len() ==> is_digit(#[trigger] m[i]) || m[i] == '.'
    &&& forall|i: int, j: int| 0 <= i < j < m.len() && #[trigger] m[i] == '.' ==> #[trigger] m[j] != '.'
    &&& exists|i: int| 0 <= i < m.len() && is_digit(#[trigger] m[i])
}

/// `Sign? Digit+`, what follows the `e` of an exponent.
pub open spec fn is_exponent_digits(x: Seq<char>) -> bool {
    let d = if x.len() > 0 && is_sign(x[0]) {
        x.skip(1)
    } else {
        x
    };
    d.len() > 0 && all_digits(d)
}

/// `Number ::= Mantissa Exp?` where `Exp ::= 'e' Sign? Digit+`, on lower-cased text.
pub open spec fn is_decimal_number(t: Seq<char>) -> bool {
    ||| (forall|i: int| 0 <= i < t.len() ==> #[trigger] t[i] != 'e') && is_mantissa(t)
    ||| exists|k: int|
        0 <= k < t.len() && #[trigger] t[k] == 'e' && (forall|i: int| 0 <= i < k ==> #[trigger] t[i]
            != 'e') && is_mantissa(t.take(k)) && is_exponent_digits(t.skip(k + 1))
}

/// The text that `str::parse::<f64>` accepts: `Sign? ('inf' | 'infinity' |
/// 'nan' | Number)`, compared after ASCII lower-casing, nothing around it.
pub open spec fn is_float_text(s: Seq<char>) -> bool {
    let body = if s.len() > 0 && is_sign(s[0]) {
        s.skip(1)
    } else {
        s
    };
    let t = body.map_values(|c: char| ascii_lower(c));
    ||| t == seq!['i', 'n', 'f']
    ||| t == seq!['i', 'n', 'f', 'i', 'n', 'i', 't', 'y']
    ||| t == seq!['n', 'a', 'n']
    ||| is_decimal_number(t)
}

fn lower_char(c: char) -> (r: char)
    ensures
        r == ascii_lower(c),
{
    if 'A' <= c && c <= 'Z' {
        let code: u8 = (c as u32 + 32) as u8;
        code as char
    } else {
        c
    }
}

/// Whether `t[lo..hi]` is a mantissa.
fn check_mantissa(t: &Vec<char>, lo: usize, hi: usize) -> (r: bool)
    requires
        lo <= hi <= t.len(),
    ensures
        r == is_mantissa(t@.subrange(lo as int, hi as int)),
{
    let ghost m = t@.subrange(lo as int, hi as int);
    let mut i = lo;
    let mut seen_dot = false;
    let mut seen_digit = false;
    while i < hi
        invariant
            lo <= i <= hi <= t.len(),
            m == t@.subrange(lo as int, hi as int),
            forall|j: int| 0 <= j < i - lo ==> is_digit(#[trigger] m[j]) || m[j] == '.',
            forall|j: int, k: int| 0 <= j < k < i - lo && #[trigger] m[j] == '.' ==> #[trigger] m[k] != '.',
            seen_dot == (exists|j: int| 0 <= j < i - lo && #[trigger] m[j] == '.'),
            seen_digit == (exists|j: int| 0 <= j < i - lo && is_digit(#[trigger] m[j])),
        decreases hi - i,
    {
        let c = t[i];
        assert(m[i - lo] == c);
        if c == '.' {
            if seen_dot {
                let ghost j = choose|j: int| 0 <= j < i - lo && #[trigger] m[j] == '.';
                assert(m[j] == '.' && m[i - lo] == '.');
                return false;
            }
            seen_dot = true;
        } else if '0' <= c && c <= '9' {
            seen_digit = true;
        } else {
            return false;
        }
        i += 1;
    }
    seen_digit
}

/// Whether `t[lo..]` is `Sign? Digit+`.
fn check_exponent_digits(t: &Vec<char>, lo: usize) -> (r: bool)
    requires
        lo <= t.len(),
    ensures
        r == is_exponent_digits(t@.skip(lo as int)),
{
    let ghost x = t@.skip(lo as int);
    if lo < t.len() && (t[lo] == '+' || t[lo] == '-') {
        let (ok, _) = read_digits(t, lo + 1);
        assert(x.skip(1) =~= t@.skip(lo + 1));
        ok
    } else {
        let (ok, _) = read_digits(t, lo);
        ok
    }
}

/// Whether `s.parse::<f64>()` succeeds.
pub fn is_float_literal(s: &Vec<char>) -> (r: bool)
    ensures
        r == is_float_text(s@),
{
    let start: usize = if s.len() > 0 && (s[0] == '+' || s[0] == '-') {
        1
    } else {
        0
    };
    let ghost body = if s@.len() > 0 && is_sign(s@[0]) {
        s@.skip(1)
    } else {
        s@
    };
    assert(body =~= s@.skip(start as int));
    let mut t: Vec<char> = Vec::new();
    let mut i = start;
    while i < s.len()
        invariant
            start <= i <= s.len(),
            t@ =~= s@.subrange(start as int, i as int).map_values(|c: char| ascii_lower(c)),
        decreases s.len() - i,
    {
        let c = lower_char(s[i]);
        t.push(c);
        i += 1;
    }
    let ghost low = body.map_values(|c: char| ascii_lower(c));
    assert(t@ =~= low);
    let n = t.len();
    if n == 3 && t[0] == 'i' && t[1] == 'n' && t[2] == 'f' {
        assert(t@ =~= seq!['i', 'n', 'f']);
        return true;
    }
    if n == 8 && t[0] == 'i' && t[1] == 'n' && t[2] == 'f' && t[3] == 'i' && t[4] == 'n' && t[5]
        == 'i' && t[6] == 't' && t[7] == 'y' {
        assert(t@ =~= seq!['i', 'n', 'f', 'i', 'n', 'i', 't', 'y']);
        return true;
    }
    if n == 3 && t[0] == 'n' && t[1] == 'a' && t[2] == 'n' {
        assert(t@ =~= seq!['n', 'a', 'n']);
        return true;
    }
    assert(t@ != seq!['i', 'n', 'f']) by {
        if t@ == seq!['i', 'n', 'f'] {
            assert(t@[0] == 'i' && t@[1] == 'n' && t@[2] == 'f');
        }
    }
    assert(t@ != seq!['i', 'n', 'f', 'i', 'n', 'i', 't', 'y']) by {
        if t@ == seq!['i', 'n', 'f', 'i', 'n', 'i', 't', 'y'] {
            assert(t@[0] == 'i' && t@[1] == 'n' && t@[2] == 'f' && t@[3] == 'i' && t@[4] == 'n'
                && t@[5] == 'i' && t@[6] == 't' && t@[7] == 'y');
        }
    }
    assert(t@ != seq!['n', 'a', 'n']) by {
        if t@ == seq!['n', 'a', 'n'] {
            assert(t@[0] == 'n' && t@[1] == 'a' && t@[2] == 'n');
        }
    }
    // find the first 'e'
    let mut k: usize = 0;
    while k < n && t[k] != 'e'
        invariant
            k <= n == t.len(),
            forall|j: int| 0 <= j < k ==> #[trigger] t@[j] != 'e',
        decreases n - k,
    {
        k += 1;
    }
    if k == n {
        let r = check_mantissa(&t, 0, n);
        assert(t@.subrange(0, n as int) =~= t@);
        assert(!(exists|q: int|
            0 <= q < t@.len() && #[trigger] t@[q] == 'e' && (forall|i: int|
                0 <= i < q ==> #[trigger] t@[i] != 'e') && is_mantissa(t@.take(q))
                && is_exponent_digits(t@.skip(q + 1))));
        r
    } else {
        let m = check_mantissa(&t, 0, k);
        assert(t@.subrange(0, k as int) =~= t@.take(k as int));
        let e = check_exponent_digits(&t, k + 1);
        assert(t@[k as int] == 'e');
        if m && e {
            assert(is_decimal_number(t@));
            true
        } else {
            assert forall|q: int|
                0 <= q < t@.len() && #[trigger] t@[q] == 'e' && (forall|i: int|
                    0 <= i < q ==> #[trigger] t@[i] != 'e') implies q == k by {
                if q < k {
                } else if q > k {
                    assert(t@[k as int] != 'e');
                }
            }
            false
        }
    }
}

} // verus!
