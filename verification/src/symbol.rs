//! Unit symbols: how they are written, which metric prefixes they take and
//! which tokens they become.

use vstd::prelude::*;
use vstd::slice::slice_subrange;

use crate::scan::{parse_i32, spec_parse_i32, starts_with, CARET};
use crate::token::{Exponents, Token};

verus! {

/// The number of bytes that a character takes, judged by its first byte.
pub open spec fn char_width(first: u8) -> int {
    if first < 0x80 {
        1
    } else if first < 0xE0 {
        2
    } else if first < 0xF0 {
        3
    } else {
        4
    }
}

/// The number of bytes of the character that starts at `at`: none at the end
/// of the text, and no more than the text has.
pub open spec fn char_len(text: Seq<u8>, at: int) -> int {
    if 0 <= at < text.len() {
        if at + char_width(text[at]) <= text.len() {
            char_width(text[at])
        } else {
            text.len() - at
        }
    } else {
        0
    }
}

/// The bytes of the character that starts at `at`; empty at the end of the
/// text.
pub open spec fn char_at(text: Seq<u8>, at: int) -> Seq<u8> {
    text.subrange(at, at + char_len(text, at))
}

/// Whether the second character of `slice` is the first character of
/// `unit_chars`: then `slice` is the unit symbol with a letter before it.
pub open spec fn spec_has_prefix(slice: Seq<u8>, unit_chars: Seq<u8>) -> bool {
    char_at(slice, char_len(slice, 0)) == char_at(unit_chars, 0)
}

/// The number of bytes of the character that starts at `at`.
pub fn char_len_at(text: &[u8], at: usize) -> (r: usize)
    ensures
        r == char_len(text@, at as int),
        at <= text.len() ==> at + r <= text.len(),
{
    if at >= text.len() {
        return 0;
    }
    let first = text[at];
    let width: usize = if first < 0x80 {
        1
    } else if first < 0xE0 {
        2
    } else if first < 0xF0 {
        3
    } else {
        4
    };
    if width <= text.len() - at {
        width
    } else {
        text.len() - at
    }
}

/// Whether the second character of `slice` is the first character of
/// `unit_chars`.
pub fn has_prefix(slice: &[u8], unit_chars: &[u8]) -> (r: bool)
    ensures
        r == spec_has_prefix(slice@, unit_chars@),
{
    let second = char_len_at(slice, 0);
    let width = char_len_at(slice, second);
    let other = char_len_at(unit_chars, 0);
    if width != other {
        return false;
    }
    let mut k: usize = 0;
    while k < width
        invariant
            k <= width,
            second + width <= slice.len(),
            width <= unit_chars.len(),
            width == char_len(slice@, second as int),
            width == char_len(unit_chars@, 0),
            second == char_len(slice@, 0),
            forall|j: int| 0 <= j < k ==> slice@[second + j] == unit_chars@[j],
        decreases width - k,
    {
        if slice[second + k] != unit_chars[k] {
            assert(char_at(slice@, second as int)[k as int] != char_at(unit_chars@, 0)[k as int]);
            return false;
        }
        k += 1;
    }
    assert(char_at(slice@, second as int) =~= char_at(unit_chars@, 0));
    true
}

/// The bytes of the micro sign.
pub open spec fn micro() -> Seq<u8> {
    seq![0xC2u8, 0xB5u8]
}

/// The power of ten of the metric prefix that `slice` starts with, if it
/// starts with one: from `Q` (quetta, 30) down to `q` (quecto, -30).
pub open spec fn spec_power_from_prefix(slice: Seq<u8>) -> Option<i32> {
    if slice.len() == 0 {
        None
    } else if starts_with(slice, 0, micro()) {
        Some(-6i32)
    } else {
        letter_power(slice[0])
    }
}

/// The power of ten of the metric prefix that a letter stands for.
pub open spec fn letter_power(letter: u8) -> Option<i32> {
    if letter == 0x51 {
        Some(30i32)
    } else if letter == 0x52 {
        Some(27i32)
    } else if letter == 0x59 {
        Some(24i32)
    } else if letter == 0x5A {
        Some(21i32)
    } else if letter == 0x45 {
        Some(18i32)
    } else if letter == 0x50 {
        Some(15i32)
    } else if letter == 0x54 {
        Some(12i32)
    } else if letter == 0x47 {
        Some(9i32)
    } else if letter == 0x4D {
        Some(6i32)
    } else if letter == 0x6B {
        Some(3i32)
    } else if letter == 0x64 {
        Some(-1i32)
    } else if letter == 0x63 {
        Some(-2i32)
    } else if letter == 0x6D {
        Some(-3i32)
    } else if letter == 0x75 {
        Some(-6i32)
    } else if letter == 0x6E {
        Some(-9i32)
    } else if letter == 0x70 {
        Some(-12i32)
    } else if letter == 0x66 {
        Some(-15i32)
    } else if letter == 0x61 {
        Some(-18i32)
    } else if letter == 0x7A {
        Some(-21i32)
    } else if letter == 0x79 {
        Some(-24i32)
    } else if letter == 0x72 {
        Some(-27i32)
    } else if letter == 0x71 {
        Some(-30i32)
    } else {
        None
    }
}

/// The power of ten of the metric prefix that `slice` starts with, if it
/// starts with one.
pub fn power_from_prefix(slice: &[u8]) -> (r: Option<i32>)
    ensures
        r == spec_power_from_prefix(slice@),
        r is Some ==> -30 <= r->0 <= 30,
{
    if slice.len() == 0 {
        return None;
    }
    if slice.len() >= 2 && slice[0] == 0xC2 && slice[1] == 0xB5 {
        assert(slice@.subrange(0, 2) =~= micro());
        return Some(-6);
    }
    proof {
        if starts_with(slice@, 0, micro()) {
            assert(slice@.subrange(0, 2)[0] == 0xC2u8);
            assert(slice@.subrange(0, 2)[1] == 0xB5u8);
        }
    }
    match slice[0] {
        0x51 => Some(30),
        0x52 => Some(27),
        0x59 => Some(24),
        0x5A => Some(21),
        0x45 => Some(18),
        0x50 => Some(15),
        0x54 => Some(12),
        0x47 => Some(9),
        0x4D => Some(6),
        0x6B => Some(3),
        0x64 => Some(-1),
        0x63 => Some(-2),
        0x6D => Some(-3),
        0x75 => Some(-6),
        0x6E => Some(-9),
        0x70 => Some(-12),
        0x66 => Some(-15),
        0x61 => Some(-18),
        0x7A => Some(-21),
        0x79 => Some(-24),
        0x72 => Some(-27),
        0x71 => Some(-30),
        _ => None,
    }
}

/// The position of the first `^` at or behind `from`, or the length of the
/// text where there is none.
pub open spec fn caret_from(slice: Seq<u8>, from: int) -> int
    decreases slice.len() - from,
{
    if from < 0 || from >= slice.len() {
        slice.len() as int
    } else if slice[from] == CARET {
        from
    } else {
        caret_from(slice, from + 1)
    }
}

/// The exponent that a lexeme carries: the integer behind its `^`, or one
/// where it has no `^`. `None` where an `i32` cannot hold the integer.
pub open spec fn spec_parse_exponent(slice: Seq<u8>) -> Option<i32> {
    let caret = caret_from(slice, 0);
    if caret < slice.len() {
        spec_parse_i32(slice.skip(caret + 1))
    } else {
        Some(1i32)
    }
}

/// The exponent that a lexeme carries.
pub fn parse_exponent(slice: &[u8]) -> (r: Option<i32>)
    ensures
        r == spec_parse_exponent(slice@),
{
    let mut i: usize = 0;
    while i < slice.len() && slice[i] != CARET
        invariant
            i <= slice.len(),
            caret_from(slice@, i as int) == caret_from(slice@, 0),
        decreases slice.len() - i,
    {
        i += 1;
    }
    if i < slice.len() {
        let digits = slice_subrange(slice, i + 1, slice.len());
        assert(digits@ =~= slice@.skip(i + 1));
        parse_i32(digits)
    } else {
        Some(1)
    }
}

/// What a unit symbol carries: the power of its prefix, where `slice` has
/// one before the symbol that `unit_chars` starts like, and its exponent.
/// A letter before the symbol that is no prefix makes the lexeme invalid,
/// unless the symbol is `lenient`: then the letter counts for nothing.
pub open spec fn spec_exponents(slice: Seq<u8>, unit_chars: Seq<u8>, lenient: bool) -> Option<
    Exponents,
> {
    let prefix = if spec_has_prefix(slice, unit_chars) {
        spec_power_from_prefix(slice)
    } else {
        Some(0i32)
    };
    match spec_parse_exponent(slice) {
        None => None,
        Some(unit) => match prefix {
            Some(prefix) => Some(Exponents { unit, prefix }),
            None => if lenient {
                Some(Exponents { unit, prefix: 0 })
            } else {
                None
            },
        },
    }
}

/// What a unit symbol carries.
pub fn parse_exponents_and_prefix(slice: &[u8], unit_chars: &[u8], lenient: bool) -> (r: Option<
    Exponents,
>)
    ensures
        r == spec_exponents(slice@, unit_chars@, lenient),
{
    let prefix = if has_prefix(slice, unit_chars) {
        power_from_prefix(slice)
    } else {
        Some(0)
    };
    match parse_exponent(slice) {
        None => None,
        Some(unit) => match prefix {
            Some(prefix) => Some(Exponents { unit, prefix }),
            None => if lenient {
                Some(Exponents { unit, prefix: 0 })
            } else {
                None
            },
        },
    }
}

} // verus!

verus! {

/// The number of unit symbols.
pub const SYMBOLS: usize = 36;

/// How the unit symbol of the given number is written. The symbols are
/// numbered in the order in which they are tried: of two symbols that match
/// the same text, the one with the lower number is taken.
pub open spec fn symbol_text(symbol: int) -> Seq<u8> {
    if symbol == 0 {
        // Nm
        [0x4Eu8, 0x6Du8]@
    } else if symbol == 1 {
        // s
        [0x73u8]@
    } else if symbol == 2 {
        // m
        [0x6Du8]@
    } else if symbol == 3 {
        // g
        [0x67u8]@
    } else if symbol == 4 {
        // A
        [0x41u8]@
    } else if symbol == 5 {
        // K
        [0x4Bu8]@
    } else if symbol == 6 {
        // mol
        [0x6Du8, 0x6Fu8, 0x6Cu8]@
    } else if symbol == 7 {
        // cd
        [0x63u8, 0x64u8]@
    } else if symbol == 8 {
        // °C
        [0xC2u8, 0xB0u8, 0x43u8]@
    } else if symbol == 9 {
        // V
        [0x56u8]@
    } else if symbol == 10 {
        // N
        [0x4Eu8]@
    } else if symbol == 11 {
        // W
        [0x57u8]@
    } else if symbol == 12 {
        // J
        [0x4Au8]@
    } else if symbol == 13 {
        // Hz
        [0x48u8, 0x7Au8]@
    } else if symbol == 14 {
        // rpm
        [0x72u8, 0x70u8, 0x6Du8]@
    } else if symbol == 15 {
        // Wb
        [0x57u8, 0x62u8]@
    } else if symbol == 16 {
        // T
        [0x54u8]@
    } else if symbol == 17 {
        // H
        [0x48u8]@
    } else if symbol == 18 {
        // S
        [0x53u8]@
    } else if symbol == 19 {
        // t
        [0x74u8]@
    } else if symbol == 20 {
        // Ohm
        [0x4Fu8, 0x68u8, 0x6Du8]@
    } else if symbol == 21 {
        // ohm
        [0x6Fu8, 0x68u8, 0x6Du8]@
    } else if symbol == 22 {
        // Ω
        [0xCEu8, 0xA9u8]@
    } else if symbol == 23 {
        // pi
        [0x70u8, 0x69u8]@
    } else if symbol == 24 {
        // π
        [0xCFu8, 0x80u8]@
    } else if symbol == 25 {
        // PI
        [0x50u8, 0x49u8]@
    } else if symbol == 26 {
        // Pi
        [0x50u8, 0x69u8]@
    } else if symbol == 27 {
        // degree
        [0x64u8, 0x65u8, 0x67u8, 0x72u8, 0x65u8, 0x65u8]@
    } else if symbol == 28 {
        // °
        [0xC2u8, 0xB0u8]@
    } else if symbol == 29 {
        // Degree
        [0x44u8, 0x65u8, 0x67u8, 0x72u8, 0x65u8, 0x65u8]@
    } else if symbol == 30 {
        // deg
        [0x64u8, 0x65u8, 0x67u8]@
    } else if symbol == 31 {
        // Deg
        [0x44u8, 0x65u8, 0x67u8]@
    } else if symbol == 32 {
        // rad
        [0x72u8, 0x61u8, 0x64u8]@
    } else if symbol == 33 {
        // radians
        [0x72u8, 0x61u8, 0x64u8, 0x69u8, 0x61u8, 0x6Eu8, 0x73u8]@
    } else if symbol == 34 {
        // Rad
        [0x52u8, 0x61u8, 0x64u8]@
    } else if symbol == 35 {
        // Radians
        [0x52u8, 0x61u8, 0x64u8, 0x69u8, 0x61u8, 0x6Eu8, 0x73u8]@
    } else {
        Seq::empty()
    }
}

/// The symbol by which a metric prefix is told: a letter before a unit
/// symbol is its prefix where the text behind the letter starts like this
/// one. Symbols that stand for the same constant or angle share the first
/// of their forms.
pub open spec fn symbol_family(symbol: int) -> Seq<u8> {
    if 23 <= symbol <= 26 {
        // pi
        [0x70u8, 0x69u8]@
    } else if 27 <= symbol <= 31 {
        // degree
        [0x64u8, 0x65u8, 0x67u8, 0x72u8, 0x65u8, 0x65u8]@
    } else if 32 <= symbol <= 35 {
        // rad
        [0x72u8, 0x61u8, 0x64u8]@
    } else {
        symbol_text(symbol)
    }
}

/// Whether a letter before the symbol that is no metric prefix is passed
/// over. This holds of the constants and angles; before a unit such a letter
/// makes the lexeme invalid.
pub open spec fn symbol_lenient(symbol: int) -> bool {
    symbol >= 23
}

/// The token that the symbol of the given number becomes.
pub open spec fn symbol_token(symbol: int, exponents: Exponents) -> Token {
    if symbol == 0 {
        Token::NewtonMeter(exponents)
    } else if symbol == 1 {
        Token::Second(exponents)
    } else if symbol == 2 {
        Token::Meter(exponents)
    } else if symbol == 3 {
        Token::Gram(exponents)
    } else if symbol == 4 {
        Token::Ampere(exponents)
    } else if symbol == 5 {
        Token::Kelvin(exponents)
    } else if symbol == 6 {
        Token::Mol(exponents)
    } else if symbol == 7 {
        Token::Candela(exponents)
    } else if symbol == 8 {
        Token::Celsius(exponents)
    } else if symbol == 9 {
        Token::Volt(exponents)
    } else if symbol == 10 {
        Token::Newton(exponents)
    } else if symbol == 11 {
        Token::Watt(exponents)
    } else if symbol == 12 {
        Token::Joule(exponents)
    } else if symbol == 13 {
        Token::Hertz(exponents)
    } else if symbol == 14 {
        Token::RotationsPerMinute(exponents)
    } else if symbol == 15 {
        Token::Weber(exponents)
    } else if symbol == 16 {
        Token::Tesla(exponents)
    } else if symbol == 17 {
        Token::Henry(exponents)
    } else if symbol == 18 {
        Token::Siemens(exponents)
    } else if symbol == 19 {
        Token::Ton(exponents)
    } else if symbol == 20 {
        Token::Ohm(exponents)
    } else if symbol == 21 {
        Token::Ohm(exponents)
    } else if symbol == 22 {
        Token::Omega(exponents)
    } else if symbol == 23 {
        Token::Pi(exponents)
    } else if symbol == 24 {
        Token::Pi(exponents)
    } else if symbol == 25 {
        Token::Pi(exponents)
    } else if symbol == 26 {
        Token::Pi(exponents)
    } else if symbol == 27 {
        Token::Degree(exponents)
    } else if symbol == 28 {
        Token::Degree(exponents)
    } else if symbol == 29 {
        Token::Degree(exponents)
    } else if symbol == 30 {
        Token::Degree(exponents)
    } else if symbol == 31 {
        Token::Degree(exponents)
    } else if symbol == 32 {
        Token::Radians(exponents)
    } else if symbol == 33 {
        Token::Radians(exponents)
    } else if symbol == 34 {
        Token::Radians(exponents)
    } else {
        Token::Radians(exponents)
    }
}

/// The token that the symbol of the given number becomes.
pub fn make_token(symbol: usize, exponents: Exponents) -> (r: Token)
    ensures
        r == symbol_token(symbol as int, exponents),
{
    match symbol {
        0 => Token::NewtonMeter(exponents),
        1 => Token::Second(exponents),
        2 => Token::Meter(exponents),
        3 => Token::Gram(exponents),
        4 => Token::Ampere(exponents),
        5 => Token::Kelvin(exponents),
        6 => Token::Mol(exponents),
        7 => Token::Candela(exponents),
        8 => Token::Celsius(exponents),
        9 => Token::Volt(exponents),
        10 => Token::Newton(exponents),
        11 => Token::Watt(exponents),
        12 => Token::Joule(exponents),
        13 => Token::Hertz(exponents),
        14 => Token::RotationsPerMinute(exponents),
        15 => Token::Weber(exponents),
        16 => Token::Tesla(exponents),
        17 => Token::Henry(exponents),
        18 => Token::Siemens(exponents),
        19 => Token::Ton(exponents),
        20 => Token::Ohm(exponents),
        21 => Token::Ohm(exponents),
        22 => Token::Omega(exponents),
        23 => Token::Pi(exponents),
        24 => Token::Pi(exponents),
        25 => Token::Pi(exponents),
        26 => Token::Pi(exponents),
        27 => Token::Degree(exponents),
        28 => Token::Degree(exponents),
        29 => Token::Degree(exponents),
        30 => Token::Degree(exponents),
        31 => Token::Degree(exponents),
        32 => Token::Radians(exponents),
        33 => Token::Radians(exponents),
        34 => Token::Radians(exponents),
        _ => Token::Radians(exponents),
    }
}

/// What the lexeme `slice` carries, read as the symbol of the given number.
pub fn symbol_exponents(slice: &[u8], symbol: usize) -> (r: Option<Exponents>)
    ensures
        r == spec_exponents(
            slice@,
            symbol_family(symbol as int),
            symbol_lenient(symbol as int),
        ),
{
    match symbol {
        0 => {
            let word = [0x4Eu8, 0x6Du8];
            assert(word@ =~= symbol_family(0));
            parse_exponents_and_prefix(slice, &word, false)
        },
        1 => {
            let word = [0x73u8];
            assert(word@ =~= symbol_family(1));
            parse_exponents_and_prefix(slice, &word, false)
        },
        2 => {
            let word = [0x6Du8];
            assert(word@ =~= symbol_family(2));
            parse_exponents_and_prefix(slice, &word, false)
        },
        3 => {
            let word = [0x67u8];
            assert(word@ =~= symbol_family(3));
            parse_exponents_and_prefix(slice, &word, false)
        },
        4 => {
            let word = [0x41u8];
            assert(word@ =~= symbol_family(4));
            parse_exponents_and_prefix(slice, &word, false)
        },
        5 => {
            let word = [0x4Bu8];
            assert(word@ =~= symbol_family(5));
            parse_exponents_and_prefix(slice, &word, false)
        },
        6 => {
            let word = [0x6Du8, 0x6Fu8, 0x6Cu8];
            assert(word@ =~= symbol_family(6));
            parse_exponents_and_prefix(slice, &word, false)
        },
        7 => {
            let word = [0x63u8, 0x64u8];
            assert(word@ =~= symbol_family(7));
            parse_exponents_and_prefix(slice, &word, false)
        },
        8 => {
            let word = [0xC2u8, 0xB0u8, 0x43u8];
            assert(word@ =~= symbol_family(8));
            parse_exponents_and_prefix(slice, &word, false)
        },
        9 => {
            let word = [0x56u8];
            assert(word@ =~= symbol_family(9));
            parse_exponents_and_prefix(slice, &word, false)
        },
        10 => {
            let word = [0x4Eu8];
            assert(word@ =~= symbol_family(10));
            parse_exponents_and_prefix(slice, &word, false)
        },
        11 => {
            let word = [0x57u8];
            assert(word@ =~= symbol_family(11));
            parse_exponents_and_prefix(slice, &word, false)
        },
        12 => {
            let word = [0x4Au8];
            assert(word@ =~= symbol_family(12));
            parse_exponents_and_prefix(slice, &word, false)
        },
        13 => {
            let word = [0x48u8, 0x7Au8];
            assert(word@ =~= symbol_family(13));
            parse_exponents_and_prefix(slice, &word, false)
        },
        14 => {
            let word = [0x72u8, 0x70u8, 0x6Du8];
            assert(word@ =~= symbol_family(14));
            parse_exponents_and_prefix(slice, &word, false)
        },
        15 => {
            let word = [0x57u8, 0x62u8];
            assert(word@ =~= symbol_family(15));
            parse_exponents_and_prefix(slice, &word, false)
        },
        16 => {
            let word = [0x54u8];
            assert(word@ =~= symbol_family(16));
            parse_exponents_and_prefix(slice, &word, false)
        },
        17 => {
            let word = [0x48u8];
            assert(word@ =~= symbol_family(17));
            parse_exponents_and_prefix(slice, &word, false)
        },
        18 => {
            let word = [0x53u8];
            assert(word@ =~= symbol_family(18));
            parse_exponents_and_prefix(slice, &word, false)
        },
        19 => {
            let word = [0x74u8];
            assert(word@ =~= symbol_family(19));
            parse_exponents_and_prefix(slice, &word, false)
        },
        20 => {
            let word = [0x4Fu8, 0x68u8, 0x6Du8];
            assert(word@ =~= symbol_family(20));
            parse_exponents_and_prefix(slice, &word, false)
        },
        21 => {
            let word = [0x6Fu8, 0x68u8, 0x6Du8];
            assert(word@ =~= symbol_family(21));
            parse_exponents_and_prefix(slice, &word, false)
        },
        22 => {
            let word = [0xCEu8, 0xA9u8];
            assert(word@ =~= symbol_family(22));
            parse_exponents_and_prefix(slice, &word, false)
        },
        23 => {
            let word = [0x70u8, 0x69u8];
            assert(word@ =~= symbol_family(23));
            parse_exponents_and_prefix(slice, &word, true)
        },
        24 => {
            let word = [0x70u8, 0x69u8];
            assert(word@ =~= symbol_family(24));
            parse_exponents_and_prefix(slice, &word, true)
        },
        25 => {
            let word = [0x70u8, 0x69u8];
            assert(word@ =~= symbol_family(25));
            parse_exponents_and_prefix(slice, &word, true)
        },
        26 => {
            let word = [0x70u8, 0x69u8];
            assert(word@ =~= symbol_family(26));
            parse_exponents_and_prefix(slice, &word, true)
        },
        27 => {
            let word = [0x64u8, 0x65u8, 0x67u8, 0x72u8, 0x65u8, 0x65u8];
            assert(word@ =~= symbol_family(27));
            parse_exponents_and_prefix(slice, &word, true)
        },
        28 => {
            let word = [0x64u8, 0x65u8, 0x67u8, 0x72u8, 0x65u8, 0x65u8];
            assert(word@ =~= symbol_family(28));
            parse_exponents_and_prefix(slice, &word, true)
        },
        29 => {
            let word = [0x64u8, 0x65u8, 0x67u8, 0x72u8, 0x65u8, 0x65u8];
            assert(word@ =~= symbol_family(29));
            parse_exponents_and_prefix(slice, &word, true)
        },
        30 => {
            let word = [0x64u8, 0x65u8, 0x67u8, 0x72u8, 0x65u8, 0x65u8];
            assert(word@ =~= symbol_family(30));
            parse_exponents_and_prefix(slice, &word, true)
        },
        31 => {
            let word = [0x64u8, 0x65u8, 0x67u8, 0x72u8, 0x65u8, 0x65u8];
            assert(word@ =~= symbol_family(31));
            parse_exponents_and_prefix(slice, &word, true)
        },
        32 => {
            let word = [0x72u8, 0x61u8, 0x64u8];
            assert(word@ =~= symbol_family(32));
            parse_exponents_and_prefix(slice, &word, true)
        },
        33 => {
            let word = [0x72u8, 0x61u8, 0x64u8];
            assert(word@ =~= symbol_family(33));
            parse_exponents_and_prefix(slice, &word, true)
        },
        34 => {
            let word = [0x72u8, 0x61u8, 0x64u8];
            assert(word@ =~= symbol_family(34));
            parse_exponents_and_prefix(slice, &word, true)
        },
        35 => {
            let word = [0x72u8, 0x61u8, 0x64u8];
            assert(word@ =~= symbol_family(35));
            parse_exponents_and_prefix(slice, &word, true)
        },
        _ => {
            let word: [u8; 0] = [];
            assert(word@ =~= symbol_family(symbol as int));
            parse_exponents_and_prefix(slice, &word, true)
        },
    }
}

} // verus!
