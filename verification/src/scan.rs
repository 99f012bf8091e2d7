//! Scanning bytes: the pieces that the token patterns are made of.
//!
//! A scanner takes a text and a position in it and returns the position
//! behind what it has recognised there, or the position it was given where
//! it has recognised nothing.

use vstd::prelude::*;

use crate::unit::fits_i32;

verus! {

pub const SPACE: u8 = 0x20;

pub const PERCENT: u8 = 0x25;

pub const LEFT: u8 = 0x28;

pub const RIGHT: u8 = 0x29;

pub const STAR: u8 = 0x2A;

pub const PLUS: u8 = 0x2B;

pub const MINUS: u8 = 0x2D;

pub const DOT: u8 = 0x2E;

pub const SLASH: u8 = 0x2F;

pub const ZERO: u8 = 0x30;

pub const ONE: u8 = 0x31;

pub const CARET: u8 = 0x5E;

/// Whether the text has the byte `b` at the position `at`.
pub open spec fn has(s: Seq<u8>, at: int, b: u8) -> bool {
    0 <= at < s.len() && s[at] == b
}

/// Whether a byte is a decimal digit.
pub open spec fn is_digit(b: u8) -> bool {
    0x30 <= b && b <= 0x39
}

/// Whether a byte is a space, a tab, a line feed or a form feed.
pub open spec fn is_blank(b: u8) -> bool {
    b == 0x20 || b == 0x09 || b == 0x0A || b == 0x0C
}

/// Whether a byte is a letter of the Latin alphabet.
pub open spec fn is_letter(b: u8) -> bool {
    (0x41 <= b && b <= 0x5A) || (0x61 <= b && b <= 0x7A)
}

/// The position behind the byte `b`, where the text has it at `at`.
pub open spec fn after(s: Seq<u8>, at: int, b: u8) -> int {
    if has(s, at, b) {
        at + 1
    } else {
        at
    }
}

/// The position behind the digits that start at `at`.
pub open spec fn digits_end(s: Seq<u8>, at: int) -> int
    decreases s.len() - at,
{
    if 0 <= at < s.len() && is_digit(s[at]) {
        digits_end(s, at + 1)
    } else {
        at
    }
}

/// The position behind the blanks that start at `at`.
pub open spec fn blanks_end(s: Seq<u8>, at: int) -> int
    decreases s.len() - at,
{
    if 0 <= at < s.len() && is_blank(s[at]) {
        blanks_end(s, at + 1)
    } else {
        at
    }
}

/// Whether the text has the bytes of `word` at the position `at`.
pub open spec fn starts_with(s: Seq<u8>, at: int, word: Seq<u8>) -> bool {
    0 <= at && at + word.len() <= s.len() && s.subrange(at, at + word.len()) == word
}

/// The position behind a number without sign: digits, then a point with
/// digits behind it, where either part may be missing.
pub open spec fn number_end(s: Seq<u8>, at: int) -> int {
    let whole = digits_end(s, at);
    if has(s, whole, DOT) && digits_end(s, whole + 1) > whole + 1 {
        digits_end(s, whole + 1)
    } else {
        whole
    }
}

/// The position behind an exponent, written as `^`, an optional `-` and
/// digits.
pub open spec fn exponent_end(s: Seq<u8>, at: int) -> int {
    if has(s, at, CARET) {
        let digits = after(s, at + 1, MINUS);
        if digits_end(s, digits) > digits {
            digits_end(s, digits)
        } else {
            at
        }
    } else {
        at
    }
}

/// The digits run to a position that is still in the text.
pub proof fn lemma_digits_end_bounds(s: Seq<u8>, at: int)
    requires
        0 <= at <= s.len(),
    ensures
        at <= digits_end(s, at) <= s.len(),
    decreases s.len() - at,
{
    if at < s.len() && is_digit(s[at]) {
        lemma_digits_end_bounds(s, at + 1);
    }
}

/// The blanks run to a position that is still in the text.
pub proof fn lemma_blanks_end_bounds(s: Seq<u8>, at: int)
    requires
        0 <= at <= s.len(),
    ensures
        at <= blanks_end(s, at) <= s.len(),
    decreases s.len() - at,
{
    if at < s.len() && is_blank(s[at]) {
        lemma_blanks_end_bounds(s, at + 1);
    }
}

/// Whether the text has the byte `b` at the position `at`.
pub fn peek(s: &[u8], at: usize, b: u8) -> (r: bool)
    ensures
        r == has(s@, at as int, b),
{
    at < s.len() && s[at] == b
}

/// The position behind the byte `b`, where the text has it at `at`.
pub fn skip_byte(s: &[u8], at: usize, b: u8) -> (r: usize)
    requires
        at <= s.len(),
    ensures
        r == after(s@, at as int, b),
        at <= r <= s.len(),
{
    if at < s.len() && s[at] == b {
        at + 1
    } else {
        at
    }
}

/// The position behind the digits that start at `at`.
pub fn skip_digits(s: &[u8], at: usize) -> (r: usize)
    requires
        at <= s.len(),
    ensures
        r == digits_end(s@, at as int),
        at <= r <= s.len(),
{
    let mut i: usize = at;
    while i < s.len() && 0x30 <= s[i] && s[i] <= 0x39
        invariant
            at <= i <= s.len(),
            digits_end(s@, i as int) == digits_end(s@, at as int),
        decreases s.len() - i,
    {
        i += 1;
    }
    i
}

/// The position behind the blanks that start at `at`.
pub fn skip_blanks(s: &[u8], at: usize) -> (r: usize)
    requires
        at <= s.len(),
    ensures
        r == blanks_end(s@, at as int),
        at <= r <= s.len(),
{
    let mut i: usize = at;
    while i < s.len() && (s[i] == 0x20 || s[i] == 0x09 || s[i] == 0x0A || s[i] == 0x0C)
        invariant
            at <= i <= s.len(),
            blanks_end(s@, i as int) == blanks_end(s@, at as int),
        decreases s.len() - i,
    {
        i += 1;
    }
    i
}

/// Whether the text has the bytes of `word` at the position `at`.
pub fn begins(s: &[u8], at: usize, word: &[u8]) -> (r: bool)
    requires
        at <= s.len(),
    ensures
        r == starts_with(s@, at as int, word@),
{
    if word.len() > s.len() - at {
        return false;
    }
    let mut i: usize = 0;
    while i < word.len()
        invariant
            i <= word.len(),
            at + word.len() <= s.len(),
            forall|k: int| 0 <= k < i ==> s@[at + k] == word@[k],
        decreases word.len() - i,
    {
        if s[at + i] != word[i] {
            assert(s@.subrange(at as int, at + word.len())[i as int] != word@[i as int]);
            return false;
        }
        i += 1;
    }
    assert(s@.subrange(at as int, at + word.len()) =~= word@);
    true
}

/// The position behind a number without sign.
pub fn skip_number(s: &[u8], at: usize) -> (r: usize)
    requires
        at <= s.len(),
    ensures
        r == number_end(s@, at as int),
        at <= r <= s.len(),
{
    let whole = skip_digits(s, at);
    if whole < s.len() && s[whole] == DOT {
        let fraction = skip_digits(s, whole + 1);
        if fraction > whole + 1 {
            return fraction;
        }
    }
    whole
}

/// The position behind an exponent.
pub fn skip_exponent(s: &[u8], at: usize) -> (r: usize)
    requires
        at <= s.len(),
    ensures
        r == exponent_end(s@, at as int),
        at <= r <= s.len(),
{
    if at < s.len() && s[at] == CARET {
        let digits = skip_byte(s, at + 1, MINUS);
        let end = skip_digits(s, digits);
        if end > digits {
            return end;
        }
    }
    at
}

/// The number that a run of decimal digits denotes.
pub open spec fn decimal(digits: Seq<u8>) -> nat
    decreases digits.len(),
{
    if digits.len() == 0 {
        0
    } else {
        decimal(digits.drop_last()) * 10 + (digits.last() - 0x30) as nat
    }
}

/// The integer that digits with an optional `-` before them denote.
pub open spec fn signed_decimal(text: Seq<u8>) -> int {
    if text.len() > 0 && text[0] == MINUS {
        -(decimal(text.skip(1)) as int)
    } else {
        decimal(text) as int
    }
}

/// Whether a text is made of decimal digits only.
pub open spec fn all_digits(text: Seq<u8>) -> bool {
    forall|i: int| 0 <= i < text.len() ==> is_digit(#[trigger] text[i])
}

/// Whether a text is an integer: digits, at least one, with an optional `-`
/// before them.
pub open spec fn is_integer(text: Seq<u8>) -> bool {
    if text.len() > 0 && text[0] == MINUS {
        text.len() > 1 && all_digits(text.skip(1))
    } else {
        text.len() > 0 && all_digits(text)
    }
}

/// The `i32` that a text denotes: the text must be an integer whose value an
/// `i32` can hold.
pub open spec fn spec_parse_i32(text: Seq<u8>) -> Option<i32> {
    if is_integer(text) && fits_i32(signed_decimal(text)) {
        Some(signed_decimal(text) as i32)
    } else {
        None
    }
}

/// Appending a digit to digits multiplies their number by ten and adds the
/// digit, so the number never shrinks.
proof fn lemma_decimal_step(digits: Seq<u8>, k: int)
    requires
        0 <= k < digits.len(),
        is_digit(digits[k]),
    ensures
        decimal(digits.take(k + 1)) == decimal(digits.take(k)) * 10 + (digits[k] - 0x30),
        decimal(digits.take(k + 1)) >= decimal(digits.take(k)),
{
    assert(digits.take(k + 1).drop_last() =~= digits.take(k));
    assert(digits.take(k + 1).last() == digits[k]);
}

/// The number that the digits of `text` from `from` on denote, or `None`
/// where a byte is no digit, where there is no digit, or where the number is
/// above `limit`.
fn parse_digits(text: &[u8], from: usize, limit: u64) -> (r: Option<u64>)
    requires
        from <= text.len(),
        limit <= 0x8000_0000,
    ensures
        r == (if from < text.len() && all_digits(text@.skip(from as int)) && decimal(
            text@.skip(from as int),
        ) <= limit {
            Some(decimal(text@.skip(from as int)) as u64)
        } else {
            None
        }),
{
    if from >= text.len() {
        return None;
    }
    let ghost digits = text@.skip(from as int);
    let mut acc: u64 = 0;
    let mut over = false;
    let mut i: usize = from;
    assert(digits.take(0) =~= Seq::<u8>::empty());
    while i < text.len()
        invariant
            from <= i <= text.len(),
            digits == text@.skip(from as int),
            limit <= 0x8000_0000,
            all_digits(digits.take(i - from)),
            over ==> decimal(digits.take(i - from)) > limit,
            !over ==> acc == decimal(digits.take(i - from)) && acc <= limit,
        decreases text.len() - i,
    {
        let b = text[i];
        if b < 0x30 || b > 0x39 {
            assert(digits[i - from] == b);
            assert(!all_digits(digits));
            return None;
        }
        proof {
            assert(digits[i - from] == b);
            lemma_decimal_step(digits, i - from);
            assert forall|k: int| 0 <= k < i - from + 1 implies is_digit(
                #[trigger] digits.take(i - from + 1)[k],
            ) by {
                if k < i - from {
                    assert(digits.take(i - from)[k] == digits.take(i - from + 1)[k]);
                }
            }
        }
        if !over {
            acc = acc * 10 + (b - 0x30) as u64;
            if acc > limit {
                over = true;
            }
        }
        i += 1;
    }
    assert(digits.take(i - from) =~= digits);
    if over {
        None
    } else {
        Some(acc)
    }
}

/// Reads an `i32` from a text. Returns `None` where the text is no integer
/// or the integer is out of range.
pub fn parse_i32(text: &[u8]) -> (r: Option<i32>)
    ensures
        r == spec_parse_i32(text@),
{
    if text.len() > 0 && text[0] == MINUS {
        match parse_digits(text, 1, 0x8000_0000) {
            Some(v) => {
                let wide: i64 = -(v as i64);
                Some(wide as i32)
            },
            None => None,
        }
    } else {
        assert(text@.skip(0) =~= text@);
        match parse_digits(text, 0, 0x7FFF_FFFF) {
            Some(v) => Some(v as i32),
            None => None,
        }
    }
}

} // verus!
