//! Text helpers shared by the other modules: decimal rendering, joining,
//! the literals that a value field may write, trimming, and the view of a
//! list of strings.

use vstd::prelude::*;
use vstd::string::{StringExecFns, StringSliceAdditionalSpecFns};

verus! {

/// The contents of a list of strings, each as its sequence of characters.
pub open spec fn texts(v: Seq<String>) -> Seq<Seq<char>> {
    Seq::new(v.len(), |i: int| v[i]@)
}

/// The decimal digit that stands for `d`, for `d` below ten.
pub open spec fn digit_char(d: nat) -> char {
    if d == 0 {
        '0'
    } else if d == 1 {
        '1'
    } else if d == 2 {
        '2'
    } else if d == 3 {
        '3'
    } else if d == 4 {
        '4'
    } else if d == 5 {
        '5'
    } else if d == 6 {
        '6'
    } else if d == 7 {
        '7'
    } else if d == 8 {
        '8'
    } else {
        '9'
    }
}

/// `n` written in base ten, without sign or leading zeros.
pub open spec fn decimal_text(n: nat) -> Seq<char>
    decreases n,
{
    if n < 10 {
        seq![digit_char(n)]
    } else {
        decimal_text(n / 10).push(digit_char(n % 10))
    }
}

/// `n` written in base ten, with a leading minus sign when negative.
pub open spec fn signed_decimal_text(n: int) -> Seq<char> {
    if n < 0 {
        seq!['-'] + decimal_text((-n) as nat)
    } else {
        decimal_text(n as nat)
    }
}

/// `parts` with `sep` between each two neighbours.
pub open spec fn join_text(parts: Seq<Seq<char>>, sep: Seq<char>) -> Seq<char>
    decreases parts.len(),
{
    if parts.len() == 0 {
        Seq::empty()
    } else if parts.len() == 1 {
        parts[0]
    } else {
        join_text(parts.drop_last(), sep) + sep + parts.last()
    }
}

#[inline]
fn digit_str(d: u64) -> (r: &'static str)
    requires
        d < 10,
    ensures
        r@ == seq![digit_char(d as nat)],
{
    proof {
        reveal_strlit("0");
        reveal_strlit("1");
        reveal_strlit("2");
        reveal_strlit("3");
        reveal_strlit("4");
        reveal_strlit("5");
        reveal_strlit("6");
        reveal_strlit("7");
        reveal_strlit("8");
        reveal_strlit("9");
    }
    let r = if d == 0 {
        "0"
    } else if d == 1 {
        "1"
    } else if d == 2 {
        "2"
    } else if d == 3 {
        "3"
    } else if d == 4 {
        "4"
    } else if d == 5 {
        "5"
    } else if d == 6 {
        "6"
    } else if d == 7 {
        "7"
    } else if d == 8 {
        "8"
    } else {
        "9"
    };
    assert(r@ =~= seq![digit_char(d as nat)]);
    r
}

/// Appends `n` in base ten to `out`.
#[inline]
pub fn push_decimal(out: &mut String, n: u64)
    ensures
        final(out)@ == old(out)@ + decimal_text(n as nat),
    decreases n,
{
    if n >= 10 {
        push_decimal(out, n / 10);
    }
    out.append(digit_str(n % 10));
    assert(out@ =~= old(out)@ + decimal_text(n as nat));
}

/// `n` in base ten.
#[inline]
pub fn decimal_string(n: u64) -> (r: String)
    ensures
        r@ == decimal_text(n as nat),
{
    let mut out = String::new();
    push_decimal(&mut out, n);
    assert(out@ =~= decimal_text(n as nat));
    out
}

/// `n` in base ten, with a leading minus sign when negative.
#[inline]
pub fn signed_decimal_string(n: i64) -> (r: String)
    ensures
        r@ == signed_decimal_text(n as int),
{
    let mut out = String::new();
    if n < 0 {
        proof {
            reveal_strlit("-");
        }
        out.append("-");
        let magnitude: u64 = (-(n + 1)) as u64 + 1;
        push_decimal(&mut out, magnitude);
        assert(out@ =~= seq!['-'] + decimal_text((-n) as nat));
    } else {
        push_decimal(&mut out, n as u64);
        assert(out@ =~= decimal_text(n as nat));
    }
    out
}

/// The strings of `parts` with `sep` between each two neighbours.
#[inline]
pub fn join(parts: &Vec<String>, sep: &str) -> (r: String)
    ensures
        r@ == join_text(texts(parts@), sep@),
{
    let mut out = String::new();
    let mut i: usize = 0;
    while i < parts.len()
        invariant
            i <= parts.len(),
            out@ == join_text(texts(parts@).take(i as int), sep@),
        decreases parts.len() - i,
    {
        proof {
            let all = texts(parts@);
            let next = all.take(i + 1);
            assert(next.drop_last() =~= all.take(i as int));
            assert(next.last() == parts@[i as int]@);
            if i == 0 {
                assert(join_text(next, sep@) =~= parts@[i as int]@);
            } else {
                assert(next.len() > 1);
            }
        }
        if i > 0 {
            out.append(sep);
        }
        out.append(parts[i].as_str());
        i = i + 1;
        assert(out@ =~= join_text(texts(parts@).take(i as int), sep@));
    }
    assert(texts(parts@).take(i as int) =~= texts(parts@));
    out
}

/// Whether `c` is one of the ten decimal digits.
pub open spec fn is_digit(c: char) -> bool {
    '0' <= c && c <= '9'
}

/// The value of a decimal digit.
pub open spec fn digit_value(c: char) -> nat {
    (c as u32 - '0' as u32) as nat
}

/// Whether `c` is a plus or a minus sign.
pub open spec fn is_sign(c: char) -> bool {
    c == '+' || c == '-'
}

/// The number of decimal digits that stand in `s` from index `from` on,
/// before the first other character.
pub open spec fn digits_from(s: Seq<char>, from: int) -> nat
    decreases s.len() - from,
{
    if 0 <= from < s.len() && is_digit(s[from]) {
        1 + digits_from(s, from + 1)
    } else {
        0
    }
}

/// The number that a string of decimal digits writes.
pub open spec fn decimal_value(digits: Seq<char>) -> nat
    decreases digits.len(),
{
    if digits.len() == 0 {
        0
    } else {
        decimal_value(digits.drop_last()) * 10 + digit_value(digits.last())
    }
}

/// `s` without one leading sign.
pub open spec fn unsigned_part(s: Seq<char>) -> Seq<char> {
    if s.len() > 0 && is_sign(s[0]) {
        s.skip(1)
    } else {
        s
    }
}

/// The integer that `s` writes: an optional sign and then one or more
/// decimal digits and nothing else, with a value that fits 64 bits signed.
pub open spec fn int_value(s: Seq<char>) -> Option<i64> {
    let digits = unsigned_part(s);
    let magnitude = decimal_value(digits) as int;
    let value = if s.len() > 0 && s[0] == '-' {
        -magnitude
    } else {
        magnitude
    };
    if digits.len() > 0 && digits_from(digits, 0) == digits.len() && i64::MIN <= value
        <= i64::MAX {
        Some(value as i64)
    } else {
        None
    }
}

/// The boolean that `s` writes: exactly `true` or `false`.
pub open spec fn bool_value(s: Seq<char>) -> Option<bool> {
    if s == "true"@ {
        Some(true)
    } else if s == "false"@ {
        Some(false)
    } else {
        None
    }
}

/// An ASCII capital as its small letter, any other character as itself.
pub open spec fn ascii_lower(c: char) -> char {
    if 'A' <= c && c <= 'Z' {
        ((c as u8 + 32) as u8) as char
    } else {
        c
    }
}

/// `s` with each ASCII capital replaced by its small letter.
pub open spec fn ascii_lowercase(s: Seq<char>) -> Seq<char> {
    Seq::new(s.len(), |i: int| ascii_lower(s[i]))
}

/// Whether an exponent stands at index `at` of `t` and ends it: `e` or `E`,
/// an optional sign, one or more digits.
pub open spec fn is_exponent(t: Seq<char>, at: int) -> bool {
    let digits_at = if at + 1 < t.len() && is_sign(t[at + 1]) {
        at + 2
    } else {
        at + 1
    };
    &&& 0 <= at < t.len()
    &&& (t[at] == 'e' || t[at] == 'E')
    &&& digits_from(t, digits_at) > 0
    &&& digits_at + digits_from(t, digits_at) == t.len()
}

/// Whether `t` is an unsigned decimal number: digits with an optional point
/// among them, at least one digit in all, and an optional exponent.
pub open spec fn is_decimal_number(t: Seq<char>) -> bool {
    let whole = digits_from(t, 0) as int;
    let has_point = whole < t.len() && t[whole] == '.';
    let fraction = if has_point {
        digits_from(t, whole + 1) as int
    } else {
        0
    };
    let mantissa_end = if has_point {
        whole + 1 + fraction
    } else {
        whole
    };
    &&& whole + fraction > 0
    &&& (mantissa_end == t.len() || is_exponent(t, mantissa_end))
}

/// Whether `t` names an infinity or a not-a-number, in any mix of ASCII case.
pub open spec fn is_special_number(t: Seq<char>) -> bool {
    let lower = ascii_lowercase(t);
    lower == "inf"@ || lower == "infinity"@ || lower == "nan"@
}

/// Whether `s` is a floating-point literal: an optional sign, and then a
/// decimal number, `inf`, `infinity` or `nan`.
pub open spec fn is_float_text(s: Seq<char>) -> bool {
    let t = unsigned_part(s);
    is_special_number(t) || is_decimal_number(t)
}

/// Whether `c` is white space: a character with the Unicode property
/// White_Space.
pub open spec fn is_whitespace(c: char) -> bool {
    let u = c as u32;
    ||| 0x09 <= u <= 0x0D
    ||| u == 0x20
    ||| u == 0x85
    ||| u == 0xA0
    ||| u == 0x1680
    ||| 0x2000 <= u <= 0x200A
    ||| u == 0x2028
    ||| u == 0x2029
    ||| u == 0x202F
    ||| u == 0x205F
    ||| u == 0x3000
}

/// The number of white-space characters that stand in `s` from index `from`
/// on, before the first other character.
pub open spec fn space_from(s: Seq<char>, from: int) -> nat
    decreases s.len() - from,
{
    if 0 <= from < s.len() && is_whitespace(s[from]) {
        1 + space_from(s, from + 1)
    } else {
        0
    }
}

/// The number of white-space characters that stand in `s` right before index
/// `end`, after the last other character.
pub open spec fn space_before(s: Seq<char>, end: int) -> nat
    decreases end,
{
    if 0 < end <= s.len() && is_whitespace(s[end - 1]) {
        1 + space_before(s, end - 1)
    } else {
        0
    }
}

/// `s` without the white space at its start and at its end.
pub open spec fn trimmed(s: Seq<char>) -> Seq<char> {
    let start = space_from(s, 0) as int;
    let end = s.len() - space_before(s, s.len() as int);
    if start < end {
        s.subrange(start, end)
    } else {
        Seq::empty()
    }
}

proof fn lemma_digits_from_bound(s: Seq<char>, from: int)
    requires
        0 <= from <= s.len(),
    ensures
        from + digits_from(s, from) <= s.len(),
        forall|k: int| from <= k < from + digits_from(s, from) ==> is_digit(#[trigger] s[k]),
        from + digits_from(s, from) < s.len() ==> !is_digit(s[from + digits_from(s, from)]),
    decreases s.len() - from,
{
    if from < s.len() && is_digit(s[from]) {
        lemma_digits_from_bound(s, from + 1);
    }
}

proof fn lemma_space_from_bound(s: Seq<char>, from: int)
    requires
        0 <= from <= s.len(),
    ensures
        from + space_from(s, from) <= s.len(),
    decreases s.len() - from,
{
    if from < s.len() && is_whitespace(s[from]) {
        lemma_space_from_bound(s, from + 1);
    }
}

proof fn lemma_space_before_bound(s: Seq<char>, end: int)
    requires
        0 <= end <= s.len(),
    ensures
        space_before(s, end) <= end,
    decreases end,
{
    if 0 < end && is_whitespace(s[end - 1]) {
        lemma_space_before_bound(s, end - 1);
    }
}

proof fn lemma_decimal_value_grows(digits: Seq<char>, n: int)
    requires
        0 <= n <= digits.len(),
    ensures
        decimal_value(digits.take(n)) <= decimal_value(digits),
    decreases digits.len() - n,
{
    if n < digits.len() {
        lemma_decimal_value_grows(digits, n + 1);
        assert(digits.take(n + 1).drop_last() =~= digits.take(n));
    } else {
        assert(digits.take(n) =~= digits);
    }
}

/// The characters of a string, in order.
#[inline]
pub fn chars_of(s: &str) -> (v: Vec<char>)
    ensures
        v@ == s@,
{
    let mut v: Vec<char> = Vec::new();
    for c in it: s.chars()
        invariant
            it.seq() == s@,
            v@ == it.seq().take(it.index()),
    {
        v.push(c);
        assert(v@ =~= it.seq().take(it.index() + 1));
    }
    assert(v@ =~= s@);
    v
}

/// The characters of `v` from index `from` up to index `to`.
#[inline]
pub fn slice_of(v: &Vec<char>, from: usize, to: usize) -> (r: Vec<char>)
    requires
        from <= to <= v.len(),
    ensures
        r@ == v@.subrange(from as int, to as int),
{
    let mut r: Vec<char> = Vec::new();
    let mut i: usize = from;
    while i < to
        invariant
            from <= i <= to <= v.len(),
            r@ == v@.subrange(from as int, i as int),
        decreases to - i,
    {
        r.push(v[i]);
        i = i + 1;
        assert(r@ =~= v@.subrange(from as int, i as int));
    }
    r
}

#[inline]
fn digit_test(c: char) -> (r: bool)
    ensures
        r == is_digit(c),
{
    c >= '0' && c <= '9'
}

#[inline]
fn sign_test(c: char) -> (r: bool)
    ensures
        r == is_sign(c),
{
    c == '+' || c == '-'
}

#[inline]
fn whitespace_test(c: char) -> (r: bool)
    ensures
        r == is_whitespace(c),
{
    let u: u32 = c as u32;
    (0x09 <= u && u <= 0x0D) || u == 0x20 || u == 0x85 || u == 0xA0 || u == 0x1680 || (0x2000 <= u
        && u <= 0x200A) || u == 0x2028 || u == 0x2029 || u == 0x202F || u == 0x205F || u == 0x3000
}

#[inline]
fn lower_char(c: char) -> (r: char)
    ensures
        r == ascii_lower(c),
{
    if c >= 'A' && c <= 'Z' {
        ((c as u8) + 32) as char
    } else {
        c
    }
}

#[inline]
fn count_digits(v: &Vec<char>, from: usize) -> (n: usize)
    requires
        from <= v.len(),
    ensures
        n == digits_from(v@, from as int),
        from + n <= v.len(),
{
    let mut to: usize = from;
    while to < v.len() && digit_test(v[to])
        invariant
            from <= to <= v.len(),
            digits_from(v@, from as int) == (to - from) + digits_from(v@, to as int),
        decreases v.len() - to,
    {
        to = to + 1;
    }
    to - from
}

/// Whether `t`, with its ASCII capitals made small, reads `word`.
#[inline]
pub fn reads_ignoring_case(t: &Vec<char>, word: &str) -> (r: bool)
    ensures
        r == (ascii_lowercase(t@) == word@),
{
    let w = chars_of(word);
    if t.len() != w.len() {
        return false;
    }
    let mut i: usize = 0;
    while i < t.len()
        invariant
            i <= t.len(),
            t.len() == w.len(),
            w@ == word@,
            forall|k: int| 0 <= k < i ==> ascii_lower(t@[k]) == w@[k],
        decreases t.len() - i,
    {
        if lower_char(t[i]) != w[i] {
            assert(ascii_lowercase(t@)[i as int] != word@[i as int]);
            return false;
        }
        i = i + 1;
    }
    assert(ascii_lowercase(t@) =~= word@);
    true
}

#[inline]
fn decimal_number_test(t: &Vec<char>) -> (r: bool)
    ensures
        r == is_decimal_number(t@),
{
    let whole = count_digits(t, 0);
    let has_point = whole < t.len() && t[whole] == '.';
    let fraction = if has_point {
        count_digits(t, whole + 1)
    } else {
        0
    };
    let mantissa_end = if has_point {
        whole + 1 + fraction
    } else {
        whole
    };
    if whole + fraction == 0 {
        return false;
    }
    if mantissa_end == t.len() {
        return true;
    }
    if !(t[mantissa_end] == 'e' || t[mantissa_end] == 'E') {
        return false;
    }
    let digits_at = if mantissa_end + 1 < t.len() && sign_test(t[mantissa_end + 1]) {
        mantissa_end + 2
    } else {
        mantissa_end + 1
    };
    let exponent = count_digits(t, digits_at);
    exponent > 0 && digits_at + exponent == t.len()
}

/// Whether the characters `s` are a floating-point literal.
#[inline]
pub fn float_test(s: &Vec<char>) -> (r: bool)
    ensures
        r == is_float_text(s@),
{
    let start: usize = if s.len() > 0 && sign_test(s[0]) {
        1
    } else {
        0
    };
    let t = slice_of(s, start, s.len());
    assert(t@ =~= unsigned_part(s@));
    reads_ignoring_case(&t, "inf") || reads_ignoring_case(&t, "infinity") || reads_ignoring_case(
        &t,
        "nan",
    ) || decimal_number_test(&t)
}

/// Whether `s` is a floating-point literal.
#[inline]
pub fn is_float_literal(s: &str) -> (r: bool)
    ensures
        r == is_float_text(s@),
{
    let v = chars_of(s);
    float_test(&v)
}

/// The integer that `s` writes, if it writes one.
#[inline]
pub fn parse_int(s: &str) -> (r: Option<i64>)
    ensures
        r == int_value(s@),
{
    let v = chars_of(s);
    let negative = v.len() > 0 && v[0] == '-';
    let start: usize = if v.len() > 0 && sign_test(v[0]) {
        1
    } else {
        0
    };
    let digits = slice_of(&v, start, v.len());
    assert(digits@ =~= unsigned_part(s@));
    if digits.len() == 0 {
        return None;
    }
    let limit: u128 = if negative {
        0x8000_0000_0000_0000
    } else {
        0x7fff_ffff_ffff_ffff
    };
    let mut value: u128 = 0;
    let mut i: usize = 0;
    while i < digits.len()
        invariant
            i <= digits.len(),
            forall|k: int| 0 <= k < i ==> is_digit(#[trigger] digits@[k]),
            value == decimal_value(digits@.take(i as int)),
            value <= limit,
            digits@ == unsigned_part(s@),
            negative == (s@.len() > 0 && s@[0] == '-'),
            limit == if negative {
                0x8000_0000_0000_0000u128
            } else {
                0x7fff_ffff_ffff_ffffu128
            },
        decreases digits.len() - i,
    {
        let c = digits[i];
        if !digit_test(c) {
            proof {
                lemma_digits_from_bound(digits@, 0);
            }
            return None;
        }
        let d: u128 = (c as u32 - '0' as u32) as u128;
        proof {
            assert(digits@.take(i + 1).drop_last() =~= digits@.take(i as int));
            assert(digits@.take(i + 1).last() == c);
        }
        value = value * 10 + d;
        if value > limit {
            proof {
                lemma_decimal_value_grows(digits@, i + 1);
            }
            return None;
        }
        i = i + 1;
    }
    proof {
        assert(digits@.take(i as int) =~= digits@);
        lemma_digits_from_bound(digits@, 0);
    }
    if negative {
        if value == 0x8000_0000_0000_0000 {
            Some(i64::MIN)
        } else {
            Some(-(value as i64))
        }
    } else {
        Some(value as i64)
    }
}

/// The boolean that `s` writes, if it writes one.
#[inline]
pub fn parse_bool(s: &str) -> (r: Option<bool>)
    ensures
        r == bool_value(s@),
{
    proof {
        reveal_strlit("true");
        reveal_strlit("false");
    }
    let v = chars_of(s);
    if v.len() == 4 && v[0] == 't' && v[1] == 'r' && v[2] == 'u' && v[3] == 'e' {
        assert(s@ =~= "true"@);
        Some(true)
    } else if v.len() == 5 && v[0] == 'f' && v[1] == 'a' && v[2] == 'l' && v[3] == 's' && v[4]
        == 'e' {
        assert(s@ =~= "false"@);
        Some(false)
    } else {
        None
    }
}

/// The characters of `s` without the white space at its start and its end.
#[inline]
pub fn trim_chars(s: &Vec<char>) -> (r: Vec<char>)
    ensures
        r@ == trimmed(s@),
{
    let mut start: usize = 0;
    while start < s.len() && whitespace_test(s[start])
        invariant
            start <= s.len(),
            space_from(s@, 0) == start + space_from(s@, start as int),
        decreases s.len() - start,
    {
        start = start + 1;
    }
    let mut end: usize = s.len();
    while end > 0 && whitespace_test(s[end - 1])
        invariant
            end <= s.len(),
            space_before(s@, s.len() as int) == (s.len() - end) + space_before(s@, end as int),
        decreases end,
    {
        end = end - 1;
    }
    if start < end {
        slice_of(s, start, end)
    } else {
        Vec::new()
    }
}

/// Whether `c` occurs in `v`.
#[inline]
pub fn holds_char(v: &Vec<char>, c: char) -> (r: bool)
    ensures
        r == v@.contains(c),
{
    let mut i: usize = 0;
    while i < v.len()
        invariant
            i <= v.len(),
            forall|k: int| 0 <= k < i ==> v@[k] != c,
        decreases v.len() - i,
    {
        if v[i] == c {
            return true;
        }
        i = i + 1;
    }
    false
}

/// Whether two strings hold the same characters.
#[inline]
pub fn same_text(a: &str, b: &str) -> (r: bool)
    ensures
        r == (a@ == b@),
{
    let x = a.as_bytes();
    let y = b.as_bytes();
    proof {
        vstd::utf8::encode_utf8_decode_utf8(a@);
        vstd::utf8::encode_utf8_decode_utf8(b@);
    }
    if x.len() != y.len() {
        return false;
    }
    let mut i: usize = 0;
    while i < x.len()
        invariant
            i <= x.len(),
            x.len() == y.len(),
            x@ == a.spec_bytes(),
            y@ == b.spec_bytes(),
            forall|k: int| 0 <= k < i ==> x@[k] == y@[k],
        decreases x.len() - i,
    {
        if x[i] != y[i] {
            return false;
        }
        i = i + 1;
    }
    assert(x@ =~= y@);
    true
}

/// What a value field writes.
#[derive(Debug, Clone, Copy, PartialEq, Eq, Structural)]
pub enum Literal {
    /// An integer that fits 64 bits signed.
    Int(i64),
    /// A floating-point number; the text itself writes it.
    Float,
    /// A boolean.
    Bool(bool),
    /// Anything else: the text stands for itself.
    Text,
}

/// The literal that `value` writes. The first reading that fits wins:
/// integer, then floating point, then boolean, then plain text.
pub open spec fn literal_of(value: Seq<char>) -> Literal {
    if int_value(value) is Some {
        Literal::Int(int_value(value).unwrap())
    } else if is_float_text(value) {
        Literal::Float
    } else if bool_value(value) is Some {
        Literal::Bool(bool_value(value).unwrap())
    } else {
        Literal::Text
    }
}

/// The literal that `value` writes.
#[inline]
pub fn classify_literal(value: &str) -> (r: Literal)
    ensures
        r == literal_of(value@),
{
    match parse_int(value) {
        Some(n) => Literal::Int(n),
        None => {
            if is_float_literal(value) {
                Literal::Float
            } else {
                match parse_bool(value) {
                    Some(b) => Literal::Bool(b),
                    None => Literal::Text,
                }
            }
        },
    }
}

/// Whether `name` is one of `names`.
#[inline]
pub fn holds_text(names: &Vec<String>, name: &str) -> (r: bool)
    ensures
        r == texts(names@).contains(name@),
{
    let mut i: usize = 0;
    while i < names.len()
        invariant
            i <= names.len(),
            forall|k: int| 0 <= k < i ==> texts(names@)[k] != name@,
        decreases names.len() - i,
    {
        if same_text(names[i].as_str(), name) {
            assert(texts(names@)[i as int] == name@);
            return true;
        }
        i = i + 1;
    }
    false
}

/// The names that stay when `dropped` leaves, in their order.
pub open spec fn kept_columns(names: Seq<Seq<char>>, dropped: Seq<char>) -> Seq<Seq<char>> {
    names.filter(|name: Seq<char>| name != dropped)
}

/// The names that stay when `dropped` leaves, in their order.
#[inline]
pub fn remaining_columns(names: &Vec<String>, dropped: &str) -> (r: Vec<String>)
    ensures
        texts(r@) == kept_columns(texts(names@), dropped@),
{
    let mut out: Vec<String> = Vec::new();
    let mut i: usize = 0;
    proof {
        reveal(Seq::filter);
        assert(texts(out@) =~= kept_columns(texts(names@).take(0), dropped@));
    }
    while i < names.len()
        invariant
            i <= names.len(),
            texts(out@) == kept_columns(texts(names@).take(i as int), dropped@),
        decreases names.len() - i,
    {
        let ghost before = out@;
        if !same_text(names[i].as_str(), dropped) {
            out.push(names[i].clone());
            assert(texts(out@) =~= texts(before).push(names@[i as int]@));
        }
        proof {
            reveal(Seq::filter);
            let next = texts(names@).take(i + 1);
            let keep = |name: Seq<char>| name != dropped@;
            assert(next.drop_last() =~= texts(names@).take(i as int));
            assert(next.last() == names@[i as int]@);
            assert(kept_columns(next, dropped@) == next.filter(keep));
            assert(next.drop_last().filter(keep) == texts(before));
            assert(texts(out@) == kept_columns(next, dropped@));
        }
        i = i + 1;
    }
    assert(texts(names@).take(i as int) =~= texts(names@));
    out
}

} // verus!
