//! Decimal notation of integers: writing and reading.

use crate::text::{chars_of, push_char};
use vstd::prelude::*;

verus! {

/// The character of the decimal digit `d`.
pub open spec fn digit_char(d: int) -> char
    recommends
        0 <= d < 10,
{
    ((48 + d) as u8) as char
}

/// The decimal digits `0` to `9`.
pub open spec fn is_digit(c: char) -> bool {
    '0' <= c && c <= '9'
}

/// The value of a decimal digit.
pub open spec fn digit_value(c: char) -> int
    recommends
        is_digit(c),
{
    (c as u32) - 48
}

/// The digits of `n` in base ten, most significant first, without leading zeros.
pub open spec fn digits_of(n: nat) -> Seq<char>
    decreases n,
{
    if n < 10 {
        seq![digit_char(n as int)]
    } else {
        digits_of(n / 10).push(digit_char((n % 10) as int))
    }
}

/// Decimal notation of an integer: a minus sign for a negative one, then its digits.
pub open spec fn decimal(n: int) -> Seq<char> {
    if n < 0 {
        seq!['-'] + digits_of((-n) as nat)
    } else {
        digits_of(n as nat)
    }
}

/// Every character of `s` is a decimal digit.
pub open spec fn all_digits(s: Seq<char>) -> bool {
    forall|i: int| 0 <= i < s.len() ==> is_digit(#[trigger] s[i])
}

/// The number that a sequence of decimal digits denotes.
pub open spec fn number_of(s: Seq<char>) -> nat
    decreases s.len(),
{
    if s.len() == 0 {
        0
    } else {
        (number_of(s.subrange(0, s.len() - 1)) * 10 + digit_value(s[s.len() - 1])) as nat
    }
}

/// What a text denotes as a signed 64-bit integer: an optional sign `+` or `-`,
/// then one or more decimal digits, and nothing else. `None` for every other
/// text, and for a number outside the range of `i64`.
pub open spec fn parse_i64(s: Seq<char>) -> Option<i64> {
    let negative = s.len() > 0 && s[0] == '-';
    let signed = s.len() > 0 && (s[0] == '-' || s[0] == '+');
    let digits = if signed {
        s.subrange(1, s.len() as int)
    } else {
        s
    };
    let value = if negative {
        -number_of(digits)
    } else {
        number_of(digits) as int
    };
    if digits.len() > 0 && all_digits(digits) && i64::MIN <= value <= i64::MAX {
        Some(value as i64)
    } else {
        None
    }
}

fn digit_of(d: u64) -> (c: char)
    requires
        d < 10,
    ensures
        c == digit_char(d as int),
        is_digit(c),
        digit_value(c) == d,
{
    let b: u8 = (48 + d) as u8;
    b as char
}

/// Appends the digits of `n` to `out`.
pub fn push_digits(out: &mut String, n: u64)
    ensures
        final(out)@ == old(out)@ + digits_of(n as nat),
    decreases n,
{
    if n >= 10 {
        push_digits(out, n / 10);
    }
    push_char(out, digit_of(n % 10));
}

/// Appends the decimal notation of `n` to `out`.
pub fn push_decimal(out: &mut String, n: i64)
    ensures
        final(out)@ == old(out)@ + decimal(n as int),
{
    if n < 0 {
        push_char(out, '-');
        let magnitude: u64 = (-(n as i128)) as u64;
        push_digits(out, magnitude);
        assert(out@ == old(out)@ + (seq!['-'] + digits_of(magnitude as nat)));
    } else {
        push_digits(out, n as u64);
    }
}

/// Decimal notation of `n`.
pub fn format_i64(n: i64) -> (r: String)
    ensures
        r@ == decimal(n as int),
{
    let mut r = String::new();
    push_decimal(&mut r, n);
    r
}

/// Reads a signed 64-bit integer in decimal notation.
pub fn parse_i64_text(s: &str) -> (r: Option<i64>)
    ensures
        r == parse_i64(s@),
{
    let chars = chars_of(s);
    assert(chars@.subrange(0, chars.len() as int) == s@);
    parse_i64_chars(&chars, 0, chars.len())
}

/// Reads a signed 64-bit integer in decimal notation from `chars[from..to]`.
pub fn parse_i64_chars(chars: &Vec<char>, from: usize, to: usize) -> (r: Option<i64>)
    requires
        from <= to <= chars.len(),
    ensures
        r == parse_i64(chars@.subrange(from as int, to as int)),
{
    let ghost s = chars@.subrange(from as int, to as int);
    if from == to {
        return None;
    }
    assert(s[0] == chars@[from as int]);
    let first = chars[from];
    let negative = first == '-';
    let start: usize = if first == '-' || first == '+' {
        from + 1
    } else {
        from
    };
    let ghost digits = chars@.subrange(start as int, to as int);
    assert(digits == if start > from {
        s.subrange(1, s.len() as int)
    } else {
        s
    });
    if start == to {
        return None;
    }
    let limit: u64 = if negative {
        0x8000_0000_0000_0000
    } else {
        0x7fff_ffff_ffff_ffff
    };
    let mut acc: u64 = 0;
    let mut i: usize = start;
    while i < to
        invariant
            from <= start <= i <= to <= chars.len(),
            from < to,
            s == chars@.subrange(from as int, to as int),
            digits == chars@.subrange(start as int, to as int),
            negative == (s[0] == '-'),
            digits == if s[0] == '-' || s[0] == '+' {
                s.subrange(1, s.len() as int)
            } else {
                s
            },
            all_digits(digits.subrange(0, i - start)),
            acc == number_of(digits.subrange(0, i - start)),
            acc <= limit,
            0x7fff_ffff_ffff_ffff <= limit <= 0x8000_0000_0000_0000,
            negative ==> limit == 0x8000_0000_0000_0000,
            !negative ==> limit == 0x7fff_ffff_ffff_ffff,
        decreases to - i,
    {
        let c = chars[i];
        assert(digits[i - start] == c);
        if !('0' <= c && c <= '9') {
            assert(!is_digit(digits[i - start]));
            return None;
        }
        let d: u64 = (c as u32 - 48) as u64;
        let ghost longer = digits.subrange(0, i - start + 1);
        assert(longer.subrange(0, longer.len() - 1) == digits.subrange(0, i - start));
        assert(number_of(longer) == acc * 10 + d);
        if acc > (limit - d) / 10 {
            proof {
                assert(number_of(longer) > limit);
                if all_digits(digits) {
                    lemma_number_of_prefix(digits, i - start + 1);
                }
            }
            return None;
        }
        acc = acc * 10 + d;
        i = i + 1;
    }
    assert(digits.subrange(0, to - start) == digits);
    if negative {
        if acc == 0x8000_0000_0000_0000 {
            Some(i64::MIN)
        } else {
            Some(-(acc as i64))
        }
    } else {
        Some(acc as i64)
    }
}

/// A number is at least the number that any prefix of its digits denotes.
pub proof fn lemma_number_of_prefix(s: Seq<char>, k: int)
    requires
        0 <= k <= s.len(),
        all_digits(s),
    ensures
        number_of(s.subrange(0, k)) <= number_of(s),
    decreases s.len() - k,
{
    if k == s.len() {
        assert(s.subrange(0, k) == s);
    } else {
        lemma_number_of_prefix(s, k + 1);
        let longer = s.subrange(0, k + 1);
        assert(longer.subrange(0, longer.len() - 1) == s.subrange(0, k));
        assert(is_digit(s[k]));
    }
}

/// The digits of a number are digits, begin with no sign, and denote that number.
pub proof fn lemma_digits_of(n: nat)
    ensures
        digits_of(n).len() > 0,
        all_digits(digits_of(n)),
        number_of(digits_of(n)) == n,
    decreases n,
{
    let s = digits_of(n);
    if n < 10 {
        assert(s.subrange(0, 0).len() == 0);
        assert(number_of(s.subrange(0, 0)) == 0);
        assert(digit_value(s[0]) == n);
    } else {
        lemma_digits_of(n / 10);
        assert(s.subrange(0, s.len() - 1) == digits_of(n / 10));
        assert(digit_value(s[s.len() - 1]) == n % 10);
    }
}

/// Reading the decimal notation of a 64-bit integer gives that integer back.
pub proof fn lemma_parse_decimal(n: i64)
    ensures
        parse_i64(decimal(n as int)) == Some(n),
{
    if n < 0 {
        let m = (-n) as nat;
        lemma_digits_of(m);
        let s = decimal(n as int);
        assert(s.subrange(1, s.len() as int) == digits_of(m));
    } else {
        lemma_digits_of(n as nat);
        let s = digits_of(n as nat);
        assert(is_digit(s[0]));
    }
}

} // verus!
