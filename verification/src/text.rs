//! Decimal numbers and whitespace as the seed formats write them.

use vstd::prelude::*;

verus! {

/// The character of a decimal digit `d` (`0 <= d < 10`).
pub open spec fn digit_char(d: nat) -> char {
    if d == 0 { '0' }
    else if d == 1 { '1' }
    else if d == 2 { '2' }
    else if d == 3 { '3' }
    else if d == 4 { '4' }
    else if d == 5 { '5' }
    else if d == 6 { '6' }
    else if d == 7 { '7' }
    else if d == 8 { '8' }
    else { '9' }
}

pub open spec fn is_digit(c: char) -> bool {
    '0' <= c && c <= '9'
}

/// The value of a digit character.
pub open spec fn digit_value(c: char) -> nat {
    (c as nat - '0' as nat) as nat
}

/// The shortest decimal representation of `n`, without sign or leading zeros.
pub open spec fn decimal(n: nat) -> Seq<char>
    decreases n,
{
    if n < 10 {
        seq![digit_char(n)]
    } else {
        decimal(n / 10).push(digit_char(n % 10))
    }
}

pub open spec fn all_digits(s: Seq<char>) -> bool {
    forall|i: int| 0 <= i < s.len() ==> is_digit(#[trigger] s[i])
}

/// The number that a sequence of digits denotes, read from the left.
pub open spec fn digits_value(s: Seq<char>) -> nat
    decreases s.len(),
{
    if s.len() == 0 {
        0
    } else {
        digits_value(s.drop_last()) * 10 + digit_value(s.last())
    }
}

pub proof fn lemma_digit_char(d: nat)
    requires
        d < 10,
    ensures
        is_digit(digit_char(d)),
        digit_value(digit_char(d)) == d,
{
}

/// A decimal representation is a nonempty string of digits that denotes its number.
pub proof fn lemma_decimal(n: nat)
    ensures
        decimal(n).len() > 0,
        all_digits(decimal(n)),
        digits_value(decimal(n)) == n,
    decreases n,
{
    if n < 10 {
        lemma_digit_char(n);
        assert(decimal(n).drop_last() =~= Seq::<char>::empty());
        assert(digits_value(Seq::<char>::empty()) == 0);
    } else {
        lemma_decimal(n / 10);
        lemma_digit_char(n % 10);
        let s = decimal(n);
        assert(s.drop_last() =~= decimal(n / 10));
        assert(s.last() == digit_char(n % 10));
        assert(digits_value(s) == digits_value(decimal(n / 10)) * 10 + digit_value(digit_char(n % 10)));
        assert forall|i: int| 0 <= i < s.len() implies is_digit(#[trigger] s[i]) by {
            if i < s.len() - 1 {
                assert(s[i] == decimal(n / 10)[i]);
            }
        }
    }
}

/// The one-character string of the digit `d`.
fn digit_str(d: u32) -> (s: &'static str)
    requires
        d < 10,
    ensures
        s@ == seq![digit_char(d as nat)],
{
    if d == 0 {
        proof { reveal_strlit("0"); }
        "0"
    } else if d == 1 {
        proof { reveal_strlit("1"); }
        "1"
    } else if d == 2 {
        proof { reveal_strlit("2"); }
        "2"
    } else if d == 3 {
        proof { reveal_strlit("3"); }
        "3"
    } else if d == 4 {
        proof { reveal_strlit("4"); }
        "4"
    } else if d == 5 {
        proof { reveal_strlit("5"); }
        "5"
    } else if d == 6 {
        proof { reveal_strlit("6"); }
        "6"
    } else if d == 7 {
        proof { reveal_strlit("7"); }
        "7"
    } else if d == 8 {
        proof { reveal_strlit("8"); }
        "8"
    } else {
        proof { reveal_strlit("9"); }
        "9"
    }
}

/// Appends the decimal representation of `n` to `out`.
pub fn push_decimal(out: &mut String, n: u32)
    ensures
        final(out)@ == old(out)@ + decimal(n as nat),
    decreases n,
{
    if n < 10 {
        out.append(digit_str(n));
    } else {
        push_decimal(out, n / 10);
        out.append(digit_str(n % 10));
    }
}

/// The number of digits at the start of `s`.
pub open spec fn leading_digits(s: Seq<char>) -> nat
    decreases s.len(),
{
    if s.len() == 0 || !is_digit(s[0]) {
        0
    } else {
        1 + leading_digits(s.drop_first())
    }
}

/// `s` read as a decimal number that fits below or at `max`: nonempty, digits only.
pub open spec fn bounded_number(s: Seq<char>, max: nat) -> Option<nat> {
    if s.len() > 0 && all_digits(s) && digits_value(s) <= max {
        Some(digits_value(s))
    } else {
        None
    }
}

/// Digits followed by a non-digit (or by nothing) are exactly the leading digits.
pub proof fn lemma_leading_digits_concat(a: Seq<char>, b: Seq<char>)
    requires
        all_digits(a),
        b.len() == 0 || !is_digit(b[0]),
    ensures
        leading_digits(a + b) == a.len(),
    decreases a.len(),
{
    if a.len() == 0 {
        assert(a + b =~= b);
    } else {
        assert((a + b).drop_first() =~= a.drop_first() + b);
        assert(is_digit(a[0]));
        assert forall|i: int| 0 <= i < a.drop_first().len() implies is_digit(#[trigger] a.drop_first()[i]) by {
            assert(a.drop_first()[i] == a[i + 1]);
        }
        lemma_leading_digits_concat(a.drop_first(), b);
    }
}

pub proof fn lemma_digits_value_prefix(s: Seq<char>, i: int)
    requires
        all_digits(s),
        0 <= i <= s.len(),
    ensures
        digits_value(s.take(i)) <= digits_value(s),
    decreases s.len(),
{
    if i < s.len() {
        assert(s.take(i) =~= s.drop_last().take(i));
        assert forall|j: int| 0 <= j < s.drop_last().len() implies is_digit(#[trigger] s.drop_last()[j]) by {
            assert(s.drop_last()[j] == s[j]);
        }
        lemma_digits_value_prefix(s.drop_last(), i);
    } else {
        assert(s.take(i) =~= s);
    }
}

/// Reads the characters `v[start..end]` as a decimal number no greater than `max`.
pub fn parse_bounded(v: &Vec<char>, start: usize, end: usize, max: u32) -> (r: Option<u32>)
    requires
        start <= end <= v.len(),
    ensures
        match bounded_number(v@.subrange(start as int, end as int), max as nat) {
            Some(n) => r == Some(n as u32),
            None => r is None,
        },
{
    let ghost s = v@.subrange(start as int, end as int);
    if start == end {
        return None;
    }
    let mut acc: u64 = 0;
    let mut i = start;
    while i < end
        invariant
            start <= i <= end <= v.len(),
            s == v@.subrange(start as int, end as int),
            all_digits(s.take(i - start)),
            acc == digits_value(s.take(i - start)),
            acc <= max,
        decreases end - i,
    {
        let c = v[i];
        if !('0' <= c && c <= '9') {
            assert(s[i - start] == c);
            return None;
        }
        let d = (c as u32 - '0' as u32) as u64;
        assert(s.take(i - start + 1).drop_last() =~= s.take(i - start));
        assert(s.take(i - start + 1).last() == c);
        acc = acc * 10 + d;
        assert forall|j: int| 0 <= j < i - start + 1 implies is_digit(#[trigger] s.take(i - start + 1)[j]) by {
            if j < i - start {
                assert(s.take(i - start + 1)[j] == s.take(i - start)[j]);
            }
        }
        if acc > max as u64 {
            proof {
                if all_digits(s) {
                    lemma_digits_value_prefix(s, i - start + 1);
                }
            }
            return None;
        }
        i = i + 1;
    }
    assert(s.take(end - start) =~= s);
    Some(acc as u32)
}

/// Counts the digits of `v` from position `start` on, up to the first non-digit.
pub fn count_leading_digits(v: &Vec<char>, start: usize) -> (k: usize)
    requires
        start <= v.len(),
    ensures
        start + k <= v.len(),
        k == leading_digits(v@.skip(start as int)),
{
    let mut i = start;
    while i < v.len() && '0' <= v[i] && v[i] <= '9'
        invariant
            start <= i <= v.len(),
            all_digits(v@.subrange(start as int, i as int)),
        decreases v.len() - i,
    {
        assert forall|j: int| 0 <= j < i + 1 - start implies is_digit(#[trigger] v@.subrange(start as int, i + 1)[j]) by {
            if j < i - start {
                assert(v@.subrange(start as int, i + 1)[j] == v@.subrange(start as int, i as int)[j]);
            }
        }
        i = i + 1;
    }
    proof {
        let a = v@.subrange(start as int, i as int);
        let b = v@.skip(i as int);
        assert(v@.skip(start as int) =~= a + b);
        if b.len() > 0 {
            assert(b[0] == v@[i as int]);
        }
        lemma_leading_digits_concat(a, b);
    }
    i - start
}

/// Unicode's `White_Space` characters, which `char::is_whitespace` and `str::trim` go by.
pub open spec fn is_whitespace(c: char) -> bool {
    ('\u{9}' <= c && c <= '\u{d}') || c == ' ' || c == '\u{85}' || c == '\u{a0}' || c == '\u{1680}'
        || ('\u{2000}' <= c && c <= '\u{200a}') || c == '\u{2028}' || c == '\u{2029}' || c
        == '\u{202f}' || c == '\u{205f}' || c == '\u{3000}'
}

pub fn whitespace(c: char) -> (r: bool)
    ensures
        r == is_whitespace(c),
{
    ('\u{9}' <= c && c <= '\u{d}') || c == ' ' || c == '\u{85}' || c == '\u{a0}' || c == '\u{1680}'
        || ('\u{2000}' <= c && c <= '\u{200a}') || c == '\u{2028}' || c == '\u{2029}' || c
        == '\u{202f}' || c == '\u{205f}' || c == '\u{3000}'
}

/// The number of whitespace characters at the start of `s`.
pub open spec fn leading_whitespace(s: Seq<char>) -> nat
    decreases s.len(),
{
    if s.len() == 0 || !is_whitespace(s[0]) {
        0
    } else {
        1 + leading_whitespace(s.drop_first())
    }
}

/// The number of whitespace characters at the end of `s`.
pub open spec fn trailing_whitespace(s: Seq<char>) -> nat
    decreases s.len(),
{
    if s.len() == 0 || !is_whitespace(s.last()) {
        0
    } else {
        1 + trailing_whitespace(s.drop_last())
    }
}

/// `s` without whitespace at either end, as `str::trim` leaves it.
pub open spec fn trim(s: Seq<char>) -> Seq<char> {
    let t = s.skip(leading_whitespace(s) as int);
    t.take(t.len() - trailing_whitespace(t))
}

pub proof fn lemma_leading_whitespace_concat(a: Seq<char>, b: Seq<char>)
    requires
        forall|i: int| 0 <= i < a.len() ==> is_whitespace(#[trigger] a[i]),
        b.len() == 0 || !is_whitespace(b[0]),
    ensures
        leading_whitespace(a + b) == a.len(),
    decreases a.len(),
{
    if a.len() == 0 {
        assert(a + b =~= b);
    } else {
        assert((a + b).drop_first() =~= a.drop_first() + b);
        assert(is_whitespace(a[0]));
        assert forall|i: int| 0 <= i < a.drop_first().len() implies is_whitespace(#[trigger] a.drop_first()[i]) by {
            assert(a.drop_first()[i] == a[i + 1]);
        }
        lemma_leading_whitespace_concat(a.drop_first(), b);
    }
}

pub proof fn lemma_trailing_whitespace_concat(a: Seq<char>, b: Seq<char>)
    requires
        forall|i: int| 0 <= i < b.len() ==> is_whitespace(#[trigger] b[i]),
        a.len() == 0 || !is_whitespace(a.last()),
    ensures
        trailing_whitespace(a + b) == b.len(),
    decreases b.len(),
{
    if b.len() == 0 {
        assert(a + b =~= a);
    } else {
        assert((a + b).drop_last() =~= a + b.drop_last());
        assert(is_whitespace(b[b.len() - 1]));
        assert((a + b).last() == b[b.len() - 1]);
        assert forall|i: int| 0 <= i < b.drop_last().len() implies is_whitespace(#[trigger] b.drop_last()[i]) by {
            assert(b.drop_last()[i] == b[i]);
        }
        lemma_trailing_whitespace_concat(a, b.drop_last());
    }
}

/// The bounds `[i, j)` of `v[start..end]` without whitespace at either end.
pub fn trim_bounds(v: &Vec<char>, start: usize, end: usize) -> (r: (usize, usize))
    requires
        start <= end <= v.len(),
    ensures
        start <= r.0 <= r.1 <= end,
        v@.subrange(r.0 as int, r.1 as int) == trim(v@.subrange(start as int, end as int)),
{
    let ghost s = v@.subrange(start as int, end as int);
    let mut i = start;
    while i < end && whitespace(v[i])
        invariant
            start <= i <= end <= v.len(),
            forall|k: int| start <= k < i ==> is_whitespace(#[trigger] v@[k]),
        decreases end - i,
    {
        i = i + 1;
    }
    proof {
        let a = v@.subrange(start as int, i as int);
        let b = v@.subrange(i as int, end as int);
        assert(s =~= a + b);
        assert forall|k: int| 0 <= k < a.len() implies is_whitespace(#[trigger] a[k]) by {
            assert(a[k] == v@[start + k]);
        }
        if b.len() > 0 {
            assert(b[0] == v@[i as int]);
        }
        lemma_leading_whitespace_concat(a, b);
        assert(s.skip(leading_whitespace(s) as int) =~= b);
    }
    let mut j = end;
    while j > i && whitespace(v[j - 1])
        invariant
            start <= i <= j <= end <= v.len(),
            forall|k: int| j <= k < end ==> is_whitespace(#[trigger] v@[k]),
        decreases j - i,
    {
        j = j - 1;
    }
    proof {
        let t = v@.subrange(i as int, end as int);
        let a = v@.subrange(i as int, j as int);
        let b = v@.subrange(j as int, end as int);
        assert(t =~= a + b);
        assert forall|k: int| 0 <= k < b.len() implies is_whitespace(#[trigger] b[k]) by {
            assert(b[k] == v@[j + k]);
        }
        if a.len() > 0 {
            assert(a.last() == v@[j - 1]);
        }
        lemma_trailing_whitespace_concat(a, b);
        assert(t.take(t.len() - trailing_whitespace(t)) =~= a);
    }
    (i, j)
}

/// The characters of `s`, in order.
pub fn chars_of(s: &str) -> (v: Vec<char>)
    ensures
        v@ == s@,
{
    let mut v: Vec<char> = Vec::new();
    for c in it: s.chars()
        invariant
            it.seq() == s@,
            v@ == it.seq().take(it.index()),
    {
        v.push(c);
        assert(v@ =~= it.seq().take(it.index() + 1));
    }
    assert(v@ =~= s@);
    v
}

} // verus!
