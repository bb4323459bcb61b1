//! Decimal text of integers: how literals are read and how numbers are written.

use vstd::prelude::*;
use crate::text::push_char;

verus! {

/// The character of a decimal digit `0..=9`.
pub open spec fn digit_char(d: int) -> char {
    (d + 48) as char
}

/// Whether `c` is one of `'0'..='9'`.
pub open spec fn is_digit(c: char) -> bool {
    '0' <= c && c <= '9'
}

/// The value of a digit character.
pub open spec fn digit_value(c: char) -> int {
    (c as int) - 48
}

/// The decimal digits of `n`, most significant first, without leading zeros.
pub open spec fn decimal(n: nat) -> Seq<char>
    decreases n,
{
    if n < 10 {
        seq![digit_char(n as int)]
    } else {
        decimal(n / 10).push(digit_char((n % 10) as int))
    }
}

/// The decimal text of an integer, with a leading `-` when it is negative.
pub open spec fn decimal_int(i: int) -> Seq<char> {
    if i < 0 {
        seq!['-'] + decimal((-i) as nat)
    } else {
        decimal(i as nat)
    }
}

/// `count` zeros.
pub open spec fn zeros(count: nat) -> Seq<char> {
    Seq::new(count, |i: int| '0')
}

/// The decimal digits of `n`, padded on the left with zeros to at least `width` characters.
pub open spec fn padded(n: nat, width: nat) -> Seq<char> {
    if decimal(n).len() < width {
        zeros((width - decimal(n).len()) as nat) + decimal(n)
    } else {
        decimal(n)
    }
}

/// The decimal text of an integer padded with zeros to at least `width`
/// characters, the sign counting as one of them and standing first.
pub open spec fn padded_int(i: int, width: nat) -> Seq<char> {
    if i < 0 {
        seq!['-'] + padded((-i) as nat, if width > 0 { (width - 1) as nat } else { 0 })
    } else {
        padded(i as nat, width)
    }
}

/// Whether every character of `s` is a decimal digit.
pub open spec fn all_digits(s: Seq<char>) -> bool {
    forall|i: int| 0 <= i < s.len() ==> is_digit(#[trigger] s[i])
}

/// The number that a run of decimal digits denotes.
pub open spec fn digits_value(s: Seq<char>) -> nat
    decreases s.len(),
{
    if s.len() == 0 {
        0
    } else {
        (digits_value(s.drop_last()) * 10 + digit_value(s.last())) as nat
    }
}

/// The value of an integer literal: an optional sign, then one or more decimal
/// digits, denoting a number that fits in 32 signed bits. `None` for any
/// other text.
pub open spec fn int_literal(s: Seq<char>) -> Option<int> {
    let signed = s.len() > 0 && (s[0] == '-' || s[0] == '+');
    let digits = if signed { s.subrange(1, s.len() as int) } else { s };
    let value = if s.len() > 0 && s[0] == '-' { -(digits_value(digits) as int) } else { digits_value(digits) as int };
    if digits.len() > 0 && all_digits(digits) && -0x8000_0000 <= value <= 0x7fff_ffff {
        Some(value)
    } else {
        None
    }
}

pub proof fn lemma_decimal_len(n: nat)
    ensures
        decimal(n).len() >= 1,
        all_digits(decimal(n)),
    decreases n,
{
    if n >= 10 {
        lemma_decimal_len(n / 10);
    }
}

/// Reading the digits that `decimal` writes gives the number back.
pub proof fn lemma_decimal_value(n: nat)
    ensures
        digits_value(decimal(n)) == n,
    decreases n,
{
    if n < 10 {
        assert(digits_value(decimal(n).drop_last()) == 0);
    } else {
        lemma_decimal_value(n / 10);
        assert(decimal(n).drop_last() == decimal(n / 10));
    }
}

/// The text written for a 32-bit integer is an integer literal with that value.
pub proof fn lemma_int_text_reads_back(i: int)
    requires
        -0x8000_0000 <= i <= 0x7fff_ffff,
    ensures
        int_literal(decimal_int(i)) == Some(i),
{
    let s = decimal_int(i);
    if i < 0 {
        let n = (-i) as nat;
        lemma_decimal_len(n);
        lemma_decimal_value(n);
        assert(s.subrange(1, s.len() as int) == decimal(n));
    } else {
        let n = i as nat;
        lemma_decimal_len(n);
        lemma_decimal_value(n);
    }
}

fn digit_of(d: u64) -> (c: char)
    requires
        d < 10,
    ensures
        c == digit_char(d as int),
{
    let b: u8 = d as u8;
    (b + 48) as char
}

/// Appends the decimal digits of `n`.
pub fn push_decimal(out: &mut String, n: u64)
    ensures
        final(out)@ == old(out)@ + decimal(n as nat),
    decreases n,
{
    if n >= 10 {
        push_decimal(out, n / 10);
    }
    push_char(out, digit_of(n % 10));
}

/// How many digits `decimal(n)` has.
pub fn decimal_len(n: u64) -> (len: usize)
    ensures
        len == decimal(n as nat).len(),
        1 <= len <= 20,
    decreases n,
{
    if n >= 10 {
        let rest = decimal_len(n / 10);
        proof {
            lemma_decimal_bound(n as nat);
        }
        rest + 1
    } else {
        1
    }
}

proof fn lemma_pow10_bound(n: nat, k: nat)
    requires
        k >= 1,
        decimal(n).len() > k,
    ensures
        n >= pow10(k),
    decreases k,
{
    reveal_with_fuel(pow10, 2);
    if k > 1 {
        lemma_pow10_bound(n / 10, (k - 1) as nat);
    }
}

spec fn pow10(k: nat) -> nat
    decreases k,
{
    if k == 0 {
        1
    } else {
        10 * pow10((k - 1) as nat)
    }
}

proof fn lemma_decimal_bound(n: nat)
    requires
        n <= u64::MAX,
    ensures
        decimal(n).len() <= 20,
{
    if decimal(n).len() > 20 {
        lemma_pow10_bound(n, 20);
        reveal_with_fuel(pow10, 21);
    }
}

/// Appends the decimal digits of `n`, padded with zeros to at least `width` characters.
pub fn push_padded(out: &mut String, n: u64, width: usize)
    ensures
        final(out)@ == old(out)@ + padded(n as nat, width as nat),
{
    let len = decimal_len(n);
    let ghost start = out@;
    let mut i: usize = len;
    while i < width
        invariant
            len <= i,
            i <= width || i == len,
            out@ == start + zeros((i - len) as nat),
        decreases width - i,
    {
        push_char(out, '0');
        i = i + 1;
    }
    push_decimal(out, n);
}

/// The magnitude of a 32-bit integer.
fn magnitude(i: i32) -> (n: u64)
    ensures
        n == (if i < 0 { -(i as int) } else { i as int }),
{
    if i < 0 {
        let wide: i64 = i as i64;
        (-wide) as u64
    } else {
        i as u64
    }
}

/// Appends the decimal text of `i`.
pub fn push_int(out: &mut String, i: i32)
    ensures
        final(out)@ == old(out)@ + decimal_int(i as int),
{
    if i < 0 {
        push_char(out, '-');
    }
    push_decimal(out, magnitude(i));
}

/// Appends the decimal text of `i`, padded with zeros to at least `width`
/// characters, sign included.
pub fn push_padded_int(out: &mut String, i: i32, width: usize)
    ensures
        final(out)@ == old(out)@ + padded_int(i as int, width as nat),
{
    if i < 0 {
        push_char(out, '-');
        push_padded(out, magnitude(i), if width > 0 { width - 1 } else { 0 });
    } else {
        push_padded(out, magnitude(i), width);
    }
}

/// Reads an integer literal.
#[verifier::loop_isolation(false)]
pub fn parse_int(chars: &Vec<char>) -> (r: Option<i32>)
    ensures
        r is Some <==> int_literal(chars@) is Some,
        r is Some ==> r->0 as int == int_literal(chars@)->0,
{
    let n = chars.len();
    if n == 0 {
        return None;
    }
    let negative = chars[0] == '-';
    let start: usize = if chars[0] == '-' || chars[0] == '+' { 1 } else { 0 };
    if start == n {
        return None;
    }
    let ghost digits = chars@.subrange(start as int, n as int);
    assert(start == 0 ==> digits == chars@);
    let mut value: u64 = 0;
    let mut i: usize = start;
    while i < n
        invariant
            start <= i <= n,
            all_digits(digits.take(i - start)),
            value == digits_value(digits.take(i - start)),
            value <= 0x8000_0000,
        decreases n - i,
    {
        let c = chars[i];
        if !('0' <= c && c <= '9') {
            assert(!is_digit(digits[i - start]));
            return None;
        }
        let d: u64 = ((c as u8) - 48) as u64;
        let next: u64 = value * 10 + d;
        proof {
            let shorter = digits.take(i - start);
            let longer = digits.take(i + 1 - start);
            assert(longer.drop_last() == shorter);
            assert(all_digits(longer));
            if next > 0x8000_0000 {
                lemma_digits_value_grows(digits, i + 1 - start);
            }
        }
        if next > 0x8000_0000 {
            return None;
        }
        value = next;
        i = i + 1;
    }
    assert(digits.take(n - start) == digits);
    if negative {
        let wide: i64 = -(value as i64);
        Some(wide as i32)
    } else if value == 0x8000_0000 {
        None
    } else {
        Some(value as i32)
    }
}

/// A run of digits denotes at least what any of its prefixes denotes.
proof fn lemma_digits_value_grows(s: Seq<char>, k: int)
    requires
        0 <= k <= s.len(),
        all_digits(s.take(k)),
    ensures
        all_digits(s) ==> digits_value(s.take(k)) <= digits_value(s),
    decreases s.len() - k,
{
    if k < s.len() && all_digits(s) {
        assert(s.take(k + 1).drop_last() == s.take(k));
        assert(all_digits(s.take(k + 1)));
        lemma_digits_value_grows(s, k + 1);
    } else if k == s.len() {
        assert(s.take(k) == s);
    }
}

/// The index after the run of decimal digits that starts at `from`.
pub open spec fn digits_end(s: Seq<char>, from: int) -> int
    decreases s.len() - from,
{
    if from < 0 || from >= s.len() || !is_digit(s[from]) {
        from
    } else {
        digits_end(s, from + 1)
    }
}

/// Whether `s` is a floating-point literal: digits with at most one `.`
/// among them, at least one digit in all, and then optionally an exponent,
/// which is `e` or `E`, an optional sign, and one or more digits.
pub open spec fn float_literal(s: Seq<char>) -> bool {
    let whole = digits_end(s, 0);
    let dotted = whole < s.len() && s[whole] == '.';
    let mantissa = if dotted { digits_end(s, whole + 1) } else { whole };
    let digits = if dotted { mantissa - 1 } else { mantissa };
    let exponent = mantissa < s.len() && (s[mantissa] == 'e' || s[mantissa] == 'E');
    let signed = exponent && mantissa + 1 < s.len() && (s[mantissa + 1] == '+' || s[mantissa + 1] == '-');
    let power = if signed { mantissa + 2 } else { mantissa + 1 };
    &&& digits >= 1
    &&& if exponent {
        digits_end(s, power) > power && digits_end(s, power) == s.len()
    } else {
        mantissa == s.len()
    }
}

/// Finds the end of the run of decimal digits that starts at `from`.
fn skip_digits(chars: &Vec<char>, from: usize) -> (end: usize)
    requires
        from <= chars.len(),
    ensures
        end == digits_end(chars@, from as int),
        from <= end <= chars.len(),
{
    let mut i: usize = from;
    while i < chars.len() && '0' <= chars[i] && chars[i] <= '9'
        invariant
            from <= i <= chars.len(),
            digits_end(chars@, from as int) == digits_end(chars@, i as int),
        decreases chars.len() - i,
    {
        i = i + 1;
    }
    i
}

/// Whether the characters are a floating-point literal.
pub fn is_float_literal(chars: &Vec<char>) -> (r: bool)
    ensures
        r == float_literal(chars@),
{
    let n = chars.len();
    let whole = skip_digits(chars, 0);
    let dotted = whole < n && chars[whole] == '.';
    let mantissa = if dotted { skip_digits(chars, whole + 1) } else { whole };
    let digits = if dotted { mantissa - 1 } else { mantissa };
    if digits < 1 {
        return false;
    }
    if mantissa < n && (chars[mantissa] == 'e' || chars[mantissa] == 'E') {
        let signed = mantissa + 1 < n && (chars[mantissa + 1] == '+' || chars[mantissa + 1] == '-');
        let power = if signed { mantissa + 2 } else { mantissa + 1 };
        let end = skip_digits(chars, power);
        end > power && end == n
    } else {
        mantissa == n
    }
}

} // verus!
