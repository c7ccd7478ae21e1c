//! Text building blocks: decimal numbers, character search and splitting.

use vstd::prelude::*;
use vstd::string::*;

verus! {

/// The character of a decimal digit.
pub open spec fn digit_char(d: nat) -> char {
    if d == 0 {
        '0'
    } else if d == 1 {
        '1'
    } else if d == 2 {
        '2'
    } else if d == 3 {
        '3'
    } else if d == 4 {
        '4'
    } else if d == 5 {
        '5'
    } else if d == 6 {
        '6'
    } else if d == 7 {
        '7'
    } else if d == 8 {
        '8'
    } else {
        '9'
    }
}

/// The decimal representation of `n`, without leading zeros.
pub open spec fn dec(n: nat) -> Seq<char>
    decreases n,
{
    if n < 10 {
        seq![digit_char(n)]
    } else {
        dec(n / 10).push(digit_char(n % 10))
    }
}

/// Appends a character to a string.
#[verifier::external_body]
pub(crate) fn push_char(s: &mut String, c: char)
    ensures
        final(s)@ == old(s)@.push(c),
{
    s.push(c);
}

fn digit(d: u64) -> (c: char)
    requires
        d < 10,
    ensures
        c == digit_char(d as nat),
{
    if d == 0 {
        '0'
    } else if d == 1 {
        '1'
    } else if d == 2 {
        '2'
    } else if d == 3 {
        '3'
    } else if d == 4 {
        '4'
    } else if d == 5 {
        '5'
    } else if d == 6 {
        '6'
    } else if d == 7 {
        '7'
    } else if d == 8 {
        '8'
    } else {
        '9'
    }
}

/// Appends the decimal representation of `n`.
pub fn push_decimal(s: &mut String, n: u64)
    ensures
        final(s)@ == old(s)@ + dec(n as nat),
    decreases n,
{
    if n >= 10 {
        push_decimal(s, n / 10);
        push_char(s, digit(n % 10));
        assert(dec(n as nat) == dec((n / 10) as nat).push(digit_char((n % 10) as nat)));
        assert(final(s)@ =~= old(s)@ + dec(n as nat));
    } else {
        push_char(s, digit(n));
        assert(final(s)@ =~= old(s)@ + dec(n as nat));
    }
}

/// The decimal representation of `n` as a new string.
pub fn decimal(n: u64) -> (r: String)
    ensures
        r@ == dec(n as nat),
{
    let mut s = String::new();
    push_decimal(&mut s, n);
    assert(s@ =~= dec(n as nat));
    s
}

/// Appends `t` to `s`.
pub fn push_str(s: &mut String, t: &str)
    ensures
        final(s)@ == old(s)@ + t@,
{
    s.append(t);
}

/// The characters of `s`, one by one.
pub fn chars_of(s: &str) -> (r: Vec<char>)
    ensures
        r@ == s@,
{
    let mut r: Vec<char> = Vec::new();
    let n = s.unicode_len();
    let mut i: usize = 0;
    while i < n
        invariant
            n == s@.len(),
            i <= n,
            r@ == s@.subrange(0, i as int),
        decreases n - i,
    {
        let c = s.get_char(i);
        r.push(c);
        i = i + 1;
        assert(r@ =~= s@.subrange(0, i as int));
    }
    assert(r@ =~= s@);
    r
}

/// Whether `c` occurs in `s`.
pub fn contains_char(s: &str, c: char) -> (r: bool)
    ensures
        r == s@.contains(c),
{
    let cs = chars_of(s);
    let mut i: usize = 0;
    while i < cs.len()
        invariant
            cs@ == s@,
            i <= cs@.len(),
            forall|j: int| 0 <= j < i ==> cs@[j] != c,
        decreases cs@.len() - i,
    {
        if cs[i] == c {
            assert(s@[i as int] == c);
            return true;
        }
        i = i + 1;
    }
    false
}

/// The part of `s` before its first `c` (all of `s` when `c` does not occur).
pub open spec fn before_first(s: Seq<char>, c: char) -> Seq<char>
    decreases s.len(),
{
    if s.len() == 0 {
        s
    } else if s[0] == c {
        Seq::empty()
    } else {
        seq![s[0]] + before_first(s.drop_first(), c)
    }
}

/// The part of `s` after its last `c` (all of `s` when `c` does not occur).
pub open spec fn after_last(s: Seq<char>, c: char) -> Seq<char>
    decreases s.len(),
{
    if s.len() == 0 {
        s
    } else if s.last() == c {
        Seq::empty()
    } else {
        after_last(s.drop_last(), c).push(s.last())
    }
}

proof fn lemma_before_first_prefix(s: Seq<char>, c: char, i: int)
    requires
        0 <= i <= s.len(),
        forall|j: int| 0 <= j < i ==> s[j] != c,
        i == s.len() || s[i] == c,
    ensures
        before_first(s, c) == s.subrange(0, i),
    decreases s.len(),
{
    if s.len() == 0 {
        assert(s.subrange(0, i) =~= s);
    } else if s[0] == c {
        assert(i == 0);
        assert(s.subrange(0, i) =~= Seq::<char>::empty());
    } else {
        lemma_before_first_prefix(s.drop_first(), c, i - 1);
        assert(s.subrange(0, i) =~= seq![s[0]] + s.drop_first().subrange(0, i - 1));
    }
}

proof fn lemma_after_last_suffix(s: Seq<char>, c: char, i: int)
    requires
        0 <= i <= s.len(),
        forall|j: int| i <= j < s.len() ==> s[j] != c,
        i == 0 || s[i - 1] == c,
    ensures
        after_last(s, c) == s.subrange(i, s.len() as int),
    decreases s.len(),
{
    if s.len() == 0 {
        assert(s.subrange(i, s.len() as int) =~= s);
    } else if s.last() == c {
        assert(i == s.len());
        assert(s.subrange(i, s.len() as int) =~= Seq::<char>::empty());
    } else {
        lemma_after_last_suffix(s.drop_last(), c, i);
        assert(s.subrange(i, s.len() as int) =~= s.drop_last().subrange(i, s.len() - 1).push(
            s.last(),
        ));
    }
}

/// The part of `s` before its first `c`.
pub fn text_before_first(s: &str, c: char) -> (r: String)
    ensures
        r@ == before_first(s@, c),
{
    let cs = chars_of(s);
    let mut i: usize = 0;
    while i < cs.len() && cs[i] != c
        invariant
            cs@ == s@,
            i <= cs@.len(),
            forall|j: int| 0 <= j < i ==> cs@[j] != c,
        decreases cs@.len() - i,
    {
        i = i + 1;
    }
    proof {
        lemma_before_first_prefix(s@, c, i as int);
    }
    let mut r = String::new();
    let mut k: usize = 0;
    while k < i
        invariant
            cs@ == s@,
            i <= cs@.len(),
            k <= i,
            r@ == s@.subrange(0, k as int),
        decreases i - k,
    {
        push_char(&mut r, cs[k]);
        k = k + 1;
        assert(r@ =~= s@.subrange(0, k as int));
    }
    r
}

/// The part of `s` after its last `c`.
pub fn text_after_last(s: &str, c: char) -> (r: String)
    ensures
        r@ == after_last(s@, c),
{
    let cs = chars_of(s);
    let n = cs.len();
    let mut i: usize = n;
    while i > 0 && cs[i - 1] != c
        invariant
            cs@ == s@,
            n == cs@.len(),
            i <= n,
            forall|j: int| i <= j < n ==> cs@[j] != c,
        decreases i,
    {
        i = i - 1;
    }
    proof {
        lemma_after_last_suffix(s@, c, i as int);
    }
    let mut r = String::new();
    let mut k: usize = i;
    while k < n
        invariant
            cs@ == s@,
            n == cs@.len(),
            i <= k <= n,
            r@ == s@.subrange(i as int, k as int),
        decreases n - k,
    {
        push_char(&mut r, cs[k]);
        k = k + 1;
        assert(r@ =~= s@.subrange(i as int, k as int));
    }
    r
}

/// Whether two strings hold the same characters.
pub fn str_eq(a: &str, b: &str) -> (r: bool)
    ensures
        r == (a@ == b@),
{
    let x = a.to_string();
    let y = b.to_string();
    x == y
}

/// The value of a decimal digit character.
pub open spec fn digit_value(c: char) -> int {
    c as int - '0' as int
}

pub open spec fn is_digit(c: char) -> bool {
    '0' <= c && c <= '9'
}

/// The number that the decimal digits `s` denote.
pub open spec fn digits_value(s: Seq<char>) -> nat
    decreases s.len(),
{
    if s.len() == 0 {
        0
    } else {
        (digits_value(s.drop_last()) * 10 + digit_value(s.last())) as nat
    }
}

/// `s` without a leading `+`.
pub open spec fn unsigned_digits(s: Seq<char>) -> Seq<char> {
    if s.len() > 0 && s[0] == '+' {
        s.drop_first()
    } else {
        s
    }
}

pub open spec fn all_digits(s: Seq<char>) -> bool {
    forall|i: int| 0 <= i < s.len() ==> is_digit(#[trigger] s[i])
}

/// What parsing `s` as a `u16` gives: an optional `+`, then at least one
/// decimal digit, with a value that fits.
pub open spec fn parse_u16_spec(s: Seq<char>) -> Option<u16> {
    if unsigned_digits(s).len() > 0 && all_digits(unsigned_digits(s)) && digits_value(
        unsigned_digits(s),
    ) <= u16::MAX {
        Some(digits_value(unsigned_digits(s)) as u16)
    } else {
        None
    }
}

/// Parses a `u16` the way `str::parse::<u16>` does.
pub fn parse_u16(s: &str) -> (r: Option<u16>)
    ensures
        r == parse_u16_spec(s@),
{
    let cs = chars_of(s);
    let start: usize = if cs.len() > 0 && cs[0] == '+' {
        1
    } else {
        0
    };
    let ghost digits = unsigned_digits(s@);
    assert(digits =~= s@.subrange(start as int, s@.len() as int));
    if start >= cs.len() {
        return None;
    }
    let mut value: u64 = 0;
    let mut i: usize = start;
    while i < cs.len()
        invariant
            cs@ == s@,
            start <= i <= cs@.len(),
            start == (if s@.len() > 0 && s@[0] == '+' { 1usize } else { 0usize }),
            digits == unsigned_digits(s@),
            digits =~= s@.subrange(start as int, s@.len() as int),
            forall|j: int| start <= j < i ==> is_digit(#[trigger] cs@[j]),
            value == digits_value(s@.subrange(start as int, i as int)),
            value <= u16::MAX,
        decreases cs@.len() - i,
    {
        let c = cs[i];
        if !('0' <= c && c <= '9') {
            assert(!is_digit(digits[i - start]));
            assert(!all_digits(digits));
            return None;
        }
        let d: u64 = (c as u64) - ('0' as u64);
        assert(s@.subrange(start as int, i + 1).drop_last() =~= s@.subrange(start as int, i as int));
        let next: u64 = value * 10 + d;
        if next > 65535 {
            proof {
                assert(digits.subrange(0, (i + 1 - start) as int) =~= s@.subrange(
                    start as int,
                    i + 1,
                ));
                if all_digits(digits) {
                    lemma_digits_value_monotone(digits, (i + 1 - start) as int);
                }
            }
            return None;
        }
        value = next;
        i = i + 1;
    }
    assert(s@.subrange(start as int, i as int) =~= digits);
    Some(value as u16)
}

/// A prefix of a digit string never denotes more than the whole string.
proof fn lemma_digits_value_monotone(s: Seq<char>, k: int)
    requires
        0 <= k <= s.len(),
        all_digits(s),
    ensures
        digits_value(s.subrange(0, k)) <= digits_value(s),
    decreases s.len() - k,
{
    if k < s.len() {
        lemma_digits_value_monotone(s, k + 1);
        assert(s.subrange(0, k + 1).drop_last() =~= s.subrange(0, k));
        assert(is_digit(s[k]));
    } else {
        assert(s.subrange(0, k) =~= s);
    }
}


/// Decodes bytes as UTF-8 with `String::from_utf8`, which accepts exactly the
/// valid UTF-8 sequences and keeps the characters they encode.
#[verifier::external_body]
pub(crate) fn utf8_string(b: &[u8]) -> (r: Option<String>)
    ensures
        r is Some <==> vstd::utf8::valid_utf8(b@),
        r matches Some(s) ==> s@ == vstd::utf8::decode_utf8(b@),
{
    String::from_utf8(b.to_vec()).ok()
}

/// The UTF-8 bytes of a text.
pub fn text_bytes(s: &str) -> (r: Vec<u8>)
    ensures
        r@ == vstd::utf8::encode_utf8(s@),
{
    crate::encryption::slice_to_vec(s.as_bytes())
}


/// The decimal text of a number is a non-empty run of digits that reads
/// back as the number.
pub proof fn lemma_dec_reads_back(n: nat)
    ensures
        dec(n).len() > 0,
        all_digits(dec(n)),
        digits_value(dec(n)) == n,
        !dec(n).contains(':'),
        dec(n)[0] != '+',
    decreases n,
{
    if n >= 10 {
        lemma_dec_reads_back(n / 10);
        let front = dec(n / 10);
        let d = dec(n);
        assert(d == front.push(digit_char(n % 10)));
        assert(d.drop_last() =~= front);
        assert(digit_value(digit_char(n % 10)) == n % 10);
        assert(d.last() == digit_char(n % 10));
        assert(digits_value(d) == digits_value(front) * 10 + digit_value(d.last()));
        assert((n / 10) * 10 + n % 10 == n) by (nonlinear_arith);
        assert(d[0] == front[0]);
        assert forall|i: int| 0 <= i < d.len() implies is_digit(#[trigger] d[i]) by {
            if i < front.len() {
                assert(d[i] == front[i]);
            }
        }
        if d.contains(':') {
            let i = choose|i: int| 0 <= i < d.len() && d[i] == ':';
            if i < front.len() {
                assert(front[i] == ':');
            }
        }
    } else {
        assert(dec(n) =~= seq![digit_char(n)]);
        assert(seq![digit_char(n)].drop_last() =~= Seq::<char>::empty());
        assert(digit_value(digit_char(n)) == n);
        assert(digits_value(dec(n)) == digits_value(dec(n).drop_last()) * 10 + digit_value(
            dec(n).last(),
        ));
        assert(digits_value(Seq::<char>::empty()) == 0);
    }
}

/// What follows the last `c` of `a + [c] + b`, where `b` holds no `c`, is `b`.
pub proof fn lemma_after_last_joined(a: Seq<char>, c: char, b: Seq<char>)
    requires
        !b.contains(c),
    ensures
        after_last(a + seq![c] + b, c) == b,
    decreases b.len(),
{
    let s = a + seq![c] + b;
    if b.len() == 0 {
        assert(s.last() == c);
    } else {
        assert(s.last() == b.last());
        assert(!b.drop_last().contains(c)) by {
            if b.drop_last().contains(c) {
                let i = choose|i: int| 0 <= i < b.drop_last().len() && b.drop_last()[i] == c;
                assert(b[i] == c);
            }
        }
        lemma_after_last_joined(a, c, b.drop_last());
        assert(s.drop_last() =~= a + seq![c] + b.drop_last());
        assert(b.drop_last().push(b.last()) =~= b);
    }
}
} // verus!
