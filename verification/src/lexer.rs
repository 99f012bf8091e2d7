//! The lexer: it cuts a quantity text into tokens.
//!
//! At every position each rule says how far it can read. The rule that
//! reads furthest makes the token; of two rules that read equally far the
//! one listed first does. Blanks between tokens are passed over, but a blank
//! that is part of a longer lexeme belongs to it. Where no rule can read
//! anything, the character at that position is reported as invalid.

use vstd::prelude::*;
use vstd::slice::slice_subrange;
use vstd::string::StringSliceAdditionalSpecFns;

use crate::error::{LexingError, Span};
use crate::magnitude::Literal;
use crate::scan::{
    after, begins, blanks_end, digits_end, exponent_end, has, is_letter, number_end, parse_i32,
    peek, skip_blanks, skip_byte, skip_digits, skip_exponent, skip_number, spec_parse_i32,
    starts_with, DOT, LEFT, MINUS, ONE, PERCENT, PLUS, RIGHT, SLASH, SPACE, STAR, ZERO,
};
use crate::symbol::{
    char_len, char_len_at, make_token, micro, parse_exponent, spec_exponents, spec_parse_exponent,
    symbol_exponents, symbol_family, symbol_lenient, symbol_text, symbol_token, SYMBOLS,
};
use crate::token::Token;

verus! {

/// The rule for blanks.
pub const BLANK: usize = 0;

/// The rule for real numbers: digits with at most one decimal point.
pub const REAL: usize = 1;

/// The rule for imaginary numbers: a number, which may be missing, one
/// space at most, and `i` or `j`.
pub const IMAG: usize = 2;

/// The rule for powers of ten written `*10^n`, with one space at most
/// behind the `*`.
pub const STAR_POWER: usize = 3;

/// The rule for powers of ten written `en`.
pub const E_POWER: usize = 4;

/// The rule for positive infinity.
pub const INFINITY: usize = 5;

/// The rule for negative infinity.
pub const NEG_INFINITY: usize = 6;

/// The rule for `(`.
pub const LEFT_BRACKET: usize = 7;

/// The rule for `)` with the exponent that may stand behind it.
pub const RIGHT_BRACKET: usize = 8;

/// The rule for `+`.
pub const ADD: usize = 9;

/// The rule for `-`.
pub const SUB: usize = 10;

/// The rule for `*`.
pub const MUL: usize = 11;

/// The rule for `/`.
pub const DIV: usize = 12;

/// The rule for `%`.
pub const PERCENT_SIGN: usize = 13;

/// The first of the rules for unit symbols; one rule for each symbol
/// follows, in the order of the symbols.
pub const FIRST_SYMBOL: usize = 14;

/// The number of rules.
pub const RULES: usize = FIRST_SYMBOL + SYMBOLS;

/// The position behind an imaginary number at `at`.
pub open spec fn imag_end(s: Seq<u8>, at: int) -> int {
    let letter = after(s, number_end(s, at), SPACE);
    if has(s, letter, 0x69) || has(s, letter, 0x6A) {
        letter + 1
    } else {
        at
    }
}

/// The position behind a power of ten written with `*` at `at`.
pub open spec fn star_power_end(s: Seq<u8>, at: int) -> int {
    if has(s, at, STAR) {
        let ten = after(s, at + 1, SPACE);
        if has(s, ten, ONE) && has(s, ten + 1, ZERO) && exponent_end(s, ten + 2) > ten + 2 {
            exponent_end(s, ten + 2)
        } else {
            at
        }
    } else {
        at
    }
}

/// The position behind a power of ten written with `e` at `at`.
pub open spec fn e_power_end(s: Seq<u8>, at: int) -> int {
    if has(s, at, 0x65) {
        let digits = after(s, at + 1, MINUS);
        if digits_end(s, digits) > digits {
            digits_end(s, digits)
        } else {
            at
        }
    } else {
        at
    }
}

/// Whether the text has `inf`, `Inf` or `INF` at `at`.
pub open spec fn has_inf(s: Seq<u8>, at: int) -> bool {
    starts_with(s, at, [0x69u8, 0x6Eu8, 0x66u8]@) || starts_with(s, at, [0x49u8, 0x6Eu8, 0x66u8]@)
        || starts_with(s, at, [0x49u8, 0x4Eu8, 0x46u8]@)
}

/// Whether the text has `infinity`, `Infinity` or `INFINITY` at `at`.
pub open spec fn has_infinity(s: Seq<u8>, at: int) -> bool {
    starts_with(s, at, [0x69u8, 0x6Eu8, 0x66u8, 0x69u8, 0x6Eu8, 0x69u8, 0x74u8, 0x79u8]@)
        || starts_with(s, at, [0x49u8, 0x6Eu8, 0x66u8, 0x69u8, 0x6Eu8, 0x69u8, 0x74u8, 0x79u8]@)
        || starts_with(s, at, [0x49u8, 0x4Eu8, 0x46u8, 0x49u8, 0x4Eu8, 0x49u8, 0x54u8, 0x59u8]@)
}

/// The position behind an infinity at `at`: one of the words for it, or
/// `.inf`, `.Inf` or `.INF`.
pub open spec fn infinity_end(s: Seq<u8>, at: int) -> int {
    if has_infinity(s, at) {
        at + 8
    } else if has_inf(s, at) {
        at + 3
    } else if has(s, at, DOT) && has_inf(s, at + 1) {
        at + 4
    } else {
        at
    }
}

/// The position behind a negative infinity at `at`: `-` and an infinity.
pub open spec fn neg_infinity_end(s: Seq<u8>, at: int) -> int {
    if has(s, at, MINUS) && infinity_end(s, at + 1) > at + 1 {
        infinity_end(s, at + 1)
    } else {
        at
    }
}

/// The position behind a closing bracket at `at`, with its exponent.
pub open spec fn right_bracket_end(s: Seq<u8>, at: int) -> int {
    if has(s, at, RIGHT) {
        exponent_end(s, at + 1)
    } else {
        at
    }
}

/// The position behind the letter at `at` that may be a metric prefix: a
/// Latin letter or the micro sign.
pub open spec fn prefix_end(s: Seq<u8>, at: int) -> int {
    if 0 <= at < s.len() && is_letter(s[at]) {
        at + 1
    } else if starts_with(s, at, micro()) {
        at + 2
    } else {
        at
    }
}

/// The position behind the symbol `word` at `at`, with its exponent.
pub open spec fn bare_end(s: Seq<u8>, at: int, word: Seq<u8>) -> int {
    if word.len() > 0 && starts_with(s, at, word) {
        exponent_end(s, at + word.len())
    } else {
        at
    }
}

/// The position behind the symbol `word` at `at`, with or without a letter
/// before it, and with its exponent: the further of the two readings.
pub open spec fn unit_end(s: Seq<u8>, at: int, word: Seq<u8>) -> int {
    let bare = bare_end(s, at, word);
    let letter = prefix_end(s, at);
    if letter > at && bare_end(s, letter, word) > letter && bare_end(s, letter, word) > bare {
        bare_end(s, letter, word)
    } else {
        bare
    }
}

/// How far the rule of the given number reads at `at`: the position behind
/// what it reads, or `at` where it reads nothing.
pub open spec fn rule_end(rule: int, s: Seq<u8>, at: int) -> int {
    if rule == BLANK {
        blanks_end(s, at)
    } else if rule == REAL {
        number_end(s, at)
    } else if rule == IMAG {
        imag_end(s, at)
    } else if rule == STAR_POWER {
        star_power_end(s, at)
    } else if rule == E_POWER {
        e_power_end(s, at)
    } else if rule == INFINITY {
        infinity_end(s, at)
    } else if rule == NEG_INFINITY {
        neg_infinity_end(s, at)
    } else if rule == LEFT_BRACKET {
        after(s, at, LEFT)
    } else if rule == RIGHT_BRACKET {
        right_bracket_end(s, at)
    } else if rule == ADD {
        after(s, at, PLUS)
    } else if rule == SUB {
        after(s, at, MINUS)
    } else if rule == MUL {
        after(s, at, STAR)
    } else if rule == DIV {
        after(s, at, SLASH)
    } else if rule == PERCENT_SIGN {
        after(s, at, PERCENT)
    } else if FIRST_SYMBOL <= rule < RULES {
        unit_end(s, at, symbol_text(rule - FIRST_SYMBOL))
    } else {
        at
    }
}

/// The best of the first `count` rules at `at`: the rule that reads
/// furthest, and the position behind what it reads. Of rules that read
/// equally far the first is the best. Where no rule reads anything the
/// position is `at`.
pub open spec fn best(s: Seq<u8>, at: int, count: int) -> (int, int)
    decreases count,
{
    if count <= 0 {
        (0, at)
    } else {
        let before = best(s, at, count - 1);
        if rule_end(count - 1, s, at) > before.1 {
            (count - 1, rule_end(count - 1, s, at))
        } else {
            before
        }
    }
}

/// The token that a rule makes of the text from `at` to `end`, or `None`
/// where the lexeme is invalid: an exponent that an `i32` cannot hold, or
/// a letter before a unit symbol that is no metric prefix.
pub open spec fn build(rule: int, s: Seq<u8>, at: int, end: int) -> Option<Token> {
    let slice = s.subrange(at, end);
    if rule == REAL {
        Some(Token::Real(Literal { start: at as usize, end: end as usize }))
    } else if rule == IMAG {
        Some(Token::Imag(Literal { start: at as usize, end: number_end(s, at) as usize }))
    } else if rule == STAR_POWER {
        match spec_parse_exponent(slice) {
            Some(n) => Some(Token::PowerOfTen(n)),
            None => None,
        }
    } else if rule == E_POWER {
        match spec_parse_i32(slice.skip(1)) {
            Some(n) => Some(Token::PowerOfTen(n)),
            None => None,
        }
    } else if rule == INFINITY {
        Some(Token::Infinity)
    } else if rule == NEG_INFINITY {
        Some(Token::NegInfinity)
    } else if rule == LEFT_BRACKET {
        Some(Token::LeftBracket)
    } else if rule == RIGHT_BRACKET {
        match spec_parse_exponent(slice) {
            Some(n) => Some(Token::RightBracket(n)),
            None => None,
        }
    } else if rule == ADD {
        Some(Token::Add)
    } else if rule == SUB {
        Some(Token::Sub)
    } else if rule == MUL {
        Some(Token::Mul)
    } else if rule == DIV {
        Some(Token::Div)
    } else if rule == PERCENT_SIGN {
        Some(Token::Percent)
    } else if FIRST_SYMBOL <= rule < RULES {
        let symbol = rule - FIRST_SYMBOL;
        match spec_exponents(slice, symbol_family(symbol), symbol_lenient(symbol)) {
            Some(exponents) => Some(symbol_token(symbol, exponents)),
            None => None,
        }
    } else {
        None
    }
}

/// A piece of the text and the token it is, or `None` where it is none.
pub struct Lexeme {
    pub token: Option<Token>,
    pub start: int,
    pub end: int,
}

/// The first lexeme at or behind `at`, or `None` where only blanks are
/// left.
pub open spec fn scan(s: Seq<u8>, at: int) -> Option<Lexeme>
    decreases s.len() - at,
{
    if at < 0 || at >= s.len() {
        None
    } else {
        let (rule, end) = best(s, at, RULES as int);
        if end <= at {
            Some(Lexeme { token: None, start: at, end: at + char_len(s, at) })
        } else if rule == BLANK && end <= s.len() {
            scan(s, end)
        } else {
            Some(Lexeme { token: build(rule, s, at, end), start: at, end })
        }
    }
}

/// No rule reads beyond the end of the text or backwards.
pub proof fn lemma_rule_end_bounds(rule: int, s: Seq<u8>, at: int)
    requires
        0 <= at <= s.len(),
    ensures
        at <= rule_end(rule, s, at) <= s.len(),
{
    crate::scan::lemma_blanks_end_bounds(s, at);
    crate::scan::lemma_digits_end_bounds(s, at);
    let whole = digits_end(s, at);
    if whole < s.len() {
        crate::scan::lemma_digits_end_bounds(s, whole + 1);
    }
    if rule == IMAG {
    } else if rule == STAR_POWER {
        if has(s, at, STAR) {
            let ten = after(s, at + 1, SPACE);
            if has(s, ten, ONE) && has(s, ten + 1, ZERO) {
                lemma_exponent_end_bounds(s, ten + 2);
            }
        }
    } else if rule == E_POWER {
        if has(s, at, 0x65) {
            crate::scan::lemma_digits_end_bounds(s, after(s, at + 1, MINUS));
        }
    } else if rule == RIGHT_BRACKET {
        if has(s, at, RIGHT) {
            lemma_exponent_end_bounds(s, at + 1);
        }
    } else if FIRST_SYMBOL <= rule < RULES {
        let word = symbol_text(rule - FIRST_SYMBOL);
        lemma_bare_end_bounds(s, at, word);
        let letter = prefix_end(s, at);
        if letter > at {
            lemma_bare_end_bounds(s, letter, word);
        }
    }
}

/// An exponent ends in the text.
pub proof fn lemma_exponent_end_bounds(s: Seq<u8>, at: int)
    requires
        0 <= at <= s.len(),
    ensures
        at <= exponent_end(s, at) <= s.len(),
{
    if has(s, at, crate::scan::CARET) {
        crate::scan::lemma_digits_end_bounds(s, after(s, at + 1, MINUS));
    }
}

/// A symbol with its exponent ends in the text.
pub proof fn lemma_bare_end_bounds(s: Seq<u8>, at: int, word: Seq<u8>)
    requires
        0 <= at <= s.len(),
    ensures
        at <= bare_end(s, at, word) <= s.len(),
{
    if word.len() > 0 && starts_with(s, at, word) {
        lemma_exponent_end_bounds(s, at + word.len());
    }
}

/// The best rule reads no further than the text goes, and no rule among
/// those it was chosen from reads further than it does: the lexer takes
/// the longest lexeme.
pub proof fn lemma_best_is_longest(s: Seq<u8>, at: int, count: int, rule: int)
    requires
        0 <= at <= s.len(),
        0 <= rule < count,
    ensures
        rule_end(rule, s, at) <= best(s, at, count).1,
        at <= best(s, at, count).1 <= s.len(),
        0 <= best(s, at, count).0 < count,
        best(s, at, count).1 > at ==> best(s, at, count).1 == rule_end(
            best(s, at, count).0,
            s,
            at,
        ),
    decreases count,
{
    reveal_with_fuel(best, 2);
    lemma_rule_end_bounds(count - 1, s, at);
    if count > 1 {
        if rule < count - 1 {
            lemma_best_is_longest(s, at, count - 1, rule);
        } else {
            lemma_best_is_longest(s, at, count - 1, 0);
        }
    }
}

/// The position behind an imaginary number at `at`.
fn skip_imag(s: &[u8], at: usize) -> (r: usize)
    requires
        at <= s.len(),
    ensures
        r == imag_end(s@, at as int),
        at <= r <= s.len(),
{
    let number = skip_number(s, at);
    let letter = skip_byte(s, number, SPACE);
    if peek(s, letter, 0x69) || peek(s, letter, 0x6A) {
        letter + 1
    } else {
        at
    }
}

/// The position behind a power of ten written with `*` at `at`.
fn skip_star_power(s: &[u8], at: usize) -> (r: usize)
    requires
        at <= s.len(),
    ensures
        r == star_power_end(s@, at as int),
        at <= r <= s.len(),
{
    if !peek(s, at, STAR) {
        return at;
    }
    let ten = skip_byte(s, at + 1, SPACE);
    if peek(s, ten, ONE) && peek(s, ten + 1, ZERO) {
        let end = skip_exponent(s, ten + 2);
        if end > ten + 2 {
            return end;
        }
    }
    at
}

/// The position behind a power of ten written with `e` at `at`.
fn skip_e_power(s: &[u8], at: usize) -> (r: usize)
    requires
        at <= s.len(),
    ensures
        r == e_power_end(s@, at as int),
        at <= r <= s.len(),
{
    if !peek(s, at, 0x65) {
        return at;
    }
    let digits = skip_byte(s, at + 1, MINUS);
    let end = skip_digits(s, digits);
    if end > digits {
        end
    } else {
        at
    }
}

/// Whether the text has `inf`, `Inf` or `INF` at `at`.
fn begins_inf(s: &[u8], at: usize) -> (r: bool)
    requires
        at <= s.len(),
    ensures
        r == has_inf(s@, at as int),
{
    let lower = [0x69u8, 0x6Eu8, 0x66u8];
    let title = [0x49u8, 0x6Eu8, 0x66u8];
    let upper = [0x49u8, 0x4Eu8, 0x46u8];
    begins(s, at, &lower) || begins(s, at, &title) || begins(s, at, &upper)
}

/// Whether the text has `infinity`, `Infinity` or `INFINITY` at `at`.
fn begins_infinity(s: &[u8], at: usize) -> (r: bool)
    requires
        at <= s.len(),
    ensures
        r == has_infinity(s@, at as int),
{
    let lower = [0x69u8, 0x6Eu8, 0x66u8, 0x69u8, 0x6Eu8, 0x69u8, 0x74u8, 0x79u8];
    let title = [0x49u8, 0x6Eu8, 0x66u8, 0x69u8, 0x6Eu8, 0x69u8, 0x74u8, 0x79u8];
    let upper = [0x49u8, 0x4Eu8, 0x46u8, 0x49u8, 0x4Eu8, 0x49u8, 0x54u8, 0x59u8];
    begins(s, at, &lower) || begins(s, at, &title) || begins(s, at, &upper)
}

/// The position behind an infinity at `at`.
fn skip_infinity(s: &[u8], at: usize) -> (r: usize)
    requires
        at <= s.len(),
    ensures
        r == infinity_end(s@, at as int),
        at <= r <= s.len(),
{
    if begins_infinity(s, at) {
        at + 8
    } else if begins_inf(s, at) {
        at + 3
    } else if peek(s, at, DOT) && begins_inf(s, at + 1) {
        at + 4
    } else {
        at
    }
}

/// The position behind a negative infinity at `at`.
fn skip_neg_infinity(s: &[u8], at: usize) -> (r: usize)
    requires
        at <= s.len(),
    ensures
        r == neg_infinity_end(s@, at as int),
        at <= r <= s.len(),
{
    if peek(s, at, MINUS) {
        let end = skip_infinity(s, at + 1);
        if end > at + 1 {
            return end;
        }
    }
    at
}

/// The position behind the letter at `at` that may be a metric prefix.
fn skip_prefix(s: &[u8], at: usize) -> (r: usize)
    requires
        at <= s.len(),
    ensures
        r == prefix_end(s@, at as int),
        at <= r <= s.len(),
{
    if at < s.len() && ((0x41 <= s[at] && s[at] <= 0x5A) || (0x61 <= s[at] && s[at] <= 0x7A)) {
        return at + 1;
    }
    let sign = [0xC2u8, 0xB5u8];
    assert(sign@ =~= micro());
    if begins(s, at, &sign) {
        at + 2
    } else {
        at
    }
}

/// The position behind the symbol `word` at `at`, with its exponent.
fn skip_bare(s: &[u8], at: usize, word: &[u8]) -> (r: usize)
    requires
        at <= s.len(),
    ensures
        r == bare_end(s@, at as int, word@),
        at <= r <= s.len(),
{
    if word.len() > 0 && begins(s, at, word) {
        skip_exponent(s, at + word.len())
    } else {
        at
    }
}

/// The position behind the symbol `word` at `at`, with or without a letter
/// before it.
fn skip_unit(s: &[u8], at: usize, word: &[u8]) -> (r: usize)
    requires
        at <= s.len(),
    ensures
        r == unit_end(s@, at as int, word@),
        at <= r <= s.len(),
{
    let bare = skip_bare(s, at, word);
    let letter = skip_prefix(s, at);
    if letter > at {
        let prefixed = skip_bare(s, letter, word);
        if prefixed > letter && prefixed > bare {
            return prefixed;
        }
    }
    bare
}

/// The position behind the unit symbol of the given number, with or without
/// a prefix before it and an exponent behind it.
fn symbol_end(s: &[u8], at: usize, symbol: usize) -> (r: usize)
    requires
        at <= s.len(),
    ensures
        r == unit_end(s@, at as int, symbol_text(symbol as int)),
        at <= r <= s.len(),
{
    match symbol {
        0 => {
            let word = [0x4Eu8, 0x6Du8];
            assert(word@ =~= symbol_text(0));
            skip_unit(s, at, &word)
        },
        1 => {
            let word = [0x73u8];
            assert(word@ =~= symbol_text(1));
            skip_unit(s, at, &word)
        },
        2 => {
            let word = [0x6Du8];
            assert(word@ =~= symbol_text(2));
            skip_unit(s, at, &word)
        },
        3 => {
            let word = [0x67u8];
            assert(word@ =~= symbol_text(3));
            skip_unit(s, at, &word)
        },
        4 => {
            let word = [0x41u8];
            assert(word@ =~= symbol_text(4));
            skip_unit(s, at, &word)
        },
        5 => {
            let word = [0x4Bu8];
            assert(word@ =~= symbol_text(5));
            skip_unit(s, at, &word)
        },
        6 => {
            let word = [0x6Du8, 0x6Fu8, 0x6Cu8];
            assert(word@ =~= symbol_text(6));
            skip_unit(s, at, &word)
        },
        7 => {
            let word = [0x63u8, 0x64u8];
            assert(word@ =~= symbol_text(7));
            skip_unit(s, at, &word)
        },
        8 => {
            let word = [0xC2u8, 0xB0u8, 0x43u8];
            assert(word@ =~= symbol_text(8));
            skip_unit(s, at, &word)
        },
        9 => {
            let word = [0x56u8];
            assert(word@ =~= symbol_text(9));
            skip_unit(s, at, &word)
        },
        10 => {
            let word = [0x4Eu8];
            assert(word@ =~= symbol_text(10));
            skip_unit(s, at, &word)
        },
        11 => {
            let word = [0x57u8];
            assert(word@ =~= symbol_text(11));
            skip_unit(s, at, &word)
        },
        12 => {
            let word = [0x4Au8];
            assert(word@ =~= symbol_text(12));
            skip_unit(s, at, &word)
        },
        13 => {
            let word = [0x48u8, 0x7Au8];
            assert(word@ =~= symbol_text(13));
            skip_unit(s, at, &word)
        },
        14 => {
            let word = [0x72u8, 0x70u8, 0x6Du8];
            assert(word@ =~= symbol_text(14));
            skip_unit(s, at, &word)
        },
        15 => {
            let word = [0x57u8, 0x62u8];
            assert(word@ =~= symbol_text(15));
            skip_unit(s, at, &word)
        },
        16 => {
            let word = [0x54u8];
            assert(word@ =~= symbol_text(16));
            skip_unit(s, at, &word)
        },
        17 => {
            let word = [0x48u8];
            assert(word@ =~= symbol_text(17));
            skip_unit(s, at, &word)
        },
        18 => {
            let word = [0x53u8];
            assert(word@ =~= symbol_text(18));
            skip_unit(s, at, &word)
        },
        19 => {
            let word = [0x74u8];
            assert(word@ =~= symbol_text(19));
            skip_unit(s, at, &word)
        },
        20 => {
            let word = [0x4Fu8, 0x68u8, 0x6Du8];
            assert(word@ =~= symbol_text(20));
            skip_unit(s, at, &word)
        },
        21 => {
            let word = [0x6Fu8, 0x68u8, 0x6Du8];
            assert(word@ =~= symbol_text(21));
            skip_unit(s, at, &word)
        },
        22 => {
            let word = [0xCEu8, 0xA9u8];
            assert(word@ =~= symbol_text(22));
            skip_unit(s, at, &word)
        },
        23 => {
            let word = [0x70u8, 0x69u8];
            assert(word@ =~= symbol_text(23));
            skip_unit(s, at, &word)
        },
        24 => {
            let word = [0xCFu8, 0x80u8];
            assert(word@ =~= symbol_text(24));
            skip_unit(s, at, &word)
        },
        25 => {
            let word = [0x50u8, 0x49u8];
            assert(word@ =~= symbol_text(25));
            skip_unit(s, at, &word)
        },
        26 => {
            let word = [0x50u8, 0x69u8];
            assert(word@ =~= symbol_text(26));
            skip_unit(s, at, &word)
        },
        27 => {
            let word = [0x64u8, 0x65u8, 0x67u8, 0x72u8, 0x65u8, 0x65u8];
            assert(word@ =~= symbol_text(27));
            skip_unit(s, at, &word)
        },
        28 => {
            let word = [0xC2u8, 0xB0u8];
            assert(word@ =~= symbol_text(28));
            skip_unit(s, at, &word)
        },
        29 => {
            let word = [0x44u8, 0x65u8, 0x67u8, 0x72u8, 0x65u8, 0x65u8];
            assert(word@ =~= symbol_text(29));
            skip_unit(s, at, &word)
        },
        30 => {
            let word = [0x64u8, 0x65u8, 0x67u8];
            assert(word@ =~= symbol_text(30));
            skip_unit(s, at, &word)
        },
        31 => {
            let word = [0x44u8, 0x65u8, 0x67u8];
            assert(word@ =~= symbol_text(31));
            skip_unit(s, at, &word)
        },
        32 => {
            let word = [0x72u8, 0x61u8, 0x64u8];
            assert(word@ =~= symbol_text(32));
            skip_unit(s, at, &word)
        },
        33 => {
            let word = [0x72u8, 0x61u8, 0x64u8, 0x69u8, 0x61u8, 0x6Eu8, 0x73u8];
            assert(word@ =~= symbol_text(33));
            skip_unit(s, at, &word)
        },
        34 => {
            let word = [0x52u8, 0x61u8, 0x64u8];
            assert(word@ =~= symbol_text(34));
            skip_unit(s, at, &word)
        },
        35 => {
            let word = [0x52u8, 0x61u8, 0x64u8, 0x69u8, 0x61u8, 0x6Eu8, 0x73u8];
            assert(word@ =~= symbol_text(35));
            skip_unit(s, at, &word)
        },
        _ => {
            let word: [u8; 0] = [];
            assert(word@ =~= symbol_text(symbol as int));
            skip_unit(s, at, &word)
        },
    }
}

/// How far the rule of the given number reads at `at`.
fn skip_rule(rule: usize, s: &[u8], at: usize) -> (r: usize)
    requires
        at <= s.len(),
    ensures
        r == rule_end(rule as int, s@, at as int),
        at <= r <= s.len(),
{
    proof {
        lemma_rule_end_bounds(rule as int, s@, at as int);
    }
    if rule == BLANK {
        skip_blanks(s, at)
    } else if rule == REAL {
        skip_number(s, at)
    } else if rule == IMAG {
        skip_imag(s, at)
    } else if rule == STAR_POWER {
        skip_star_power(s, at)
    } else if rule == E_POWER {
        skip_e_power(s, at)
    } else if rule == INFINITY {
        skip_infinity(s, at)
    } else if rule == NEG_INFINITY {
        skip_neg_infinity(s, at)
    } else if rule == LEFT_BRACKET {
        skip_byte(s, at, LEFT)
    } else if rule == RIGHT_BRACKET {
        if peek(s, at, RIGHT) {
            skip_exponent(s, at + 1)
        } else {
            at
        }
    } else if rule == ADD {
        skip_byte(s, at, PLUS)
    } else if rule == SUB {
        skip_byte(s, at, MINUS)
    } else if rule == MUL {
        skip_byte(s, at, STAR)
    } else if rule == DIV {
        skip_byte(s, at, SLASH)
    } else if rule == PERCENT_SIGN {
        skip_byte(s, at, PERCENT)
    } else if rule < RULES {
        symbol_end(s, at, rule - FIRST_SYMBOL)
    } else {
        at
    }
}

/// The best rule at `at` and the position behind what it reads.
fn best_rule(s: &[u8], at: usize) -> (r: (usize, usize))
    requires
        at <= s.len(),
    ensures
        (r.0 as int, r.1 as int) == best(s@, at as int, RULES as int),
        at <= r.1 <= s.len(),
        r.0 < RULES,
{
    let mut rule: usize = 0;
    let mut end: usize = at;
    let mut next: usize = 0;
    while next < RULES
        invariant
            next <= RULES,
            at <= end <= s.len(),
            at <= s.len(),
            rule < RULES,
            (rule as int, end as int) == best(s@, at as int, next as int),
        decreases RULES - next,
    {
        let reach = skip_rule(next, s, at);
        if reach > end {
            rule = next;
            end = reach;
        }
        next += 1;
    }
    (rule, end)
}

/// The token that a rule makes of the text from `at` to `end`.
fn make(rule: usize, s: &[u8], at: usize, end: usize) -> (r: Option<Token>)
    requires
        at < end <= s.len(),
        rule < RULES,
    ensures
        r == build(rule as int, s@, at as int, end as int),
{
    let slice = slice_subrange(s, at, end);
    if rule == REAL {
        Some(Token::Real(Literal { start: at, end }))
    } else if rule == IMAG {
        Some(Token::Imag(Literal { start: at, end: skip_number(s, at) }))
    } else if rule == STAR_POWER {
        match parse_exponent(slice) {
            Some(n) => Some(Token::PowerOfTen(n)),
            None => None,
        }
    } else if rule == E_POWER {
        let digits = slice_subrange(slice, 1, slice.len());
        assert(digits@ =~= slice@.skip(1));
        match parse_i32(digits) {
            Some(n) => Some(Token::PowerOfTen(n)),
            None => None,
        }
    } else if rule == INFINITY {
        Some(Token::Infinity)
    } else if rule == NEG_INFINITY {
        Some(Token::NegInfinity)
    } else if rule == LEFT_BRACKET {
        Some(Token::LeftBracket)
    } else if rule == RIGHT_BRACKET {
        match parse_exponent(slice) {
            Some(n) => Some(Token::RightBracket(n)),
            None => None,
        }
    } else if rule == ADD {
        Some(Token::Add)
    } else if rule == SUB {
        Some(Token::Sub)
    } else if rule == MUL {
        Some(Token::Mul)
    } else if rule == DIV {
        Some(Token::Div)
    } else if rule == PERCENT_SIGN {
        Some(Token::Percent)
    } else if rule >= FIRST_SYMBOL {
        let symbol = rule - FIRST_SYMBOL;
        match symbol_exponents(slice, symbol) {
            Some(exponents) => Some(make_token(symbol, exponents)),
            None => None,
        }
    } else {
        None
    }
}

/// Every lexeme lies in the text, behind the position at which the search
/// for it began, and is not empty.
pub proof fn lemma_scan_progress(s: Seq<u8>, at: int)
    requires
        0 <= at,
    ensures
        match scan(s, at) {
            Some(lexeme) => at <= lexeme.start < lexeme.end <= s.len(),
            None => true,
        },
    decreases s.len() - at,
{
    if at < s.len() {
        lemma_best_is_longest(s, at, RULES as int, 0);
        let (rule, end) = best(s, at, RULES as int);
        if end > at && rule == BLANK {
            lemma_scan_progress(s, end);
        }
    }
}

/// A lexer over a text. It hands out the tokens of the text one by one and
/// tells where in the text the last one stood.
pub struct Lexer<'a> {
    input: &'a [u8],
    start: usize,
    end: usize,
}

impl<'a> Lexer<'a> {
    #[verifier::type_invariant]
    spec fn well_formed(self) -> bool {
        self.start <= self.end <= self.input@.len()
    }

    /// The text that is read.
    pub closed spec fn source(self) -> Seq<u8> {
        self.input@
    }

    /// Where the last lexeme stood; the next one is looked for behind it.
    pub closed spec fn position(self) -> Span {
        Span { start: self.start, end: self.end }
    }

    /// A lexer at the start of a text.
    pub fn new(input: &'a [u8]) -> (r: Lexer<'a>)
        ensures
            r.source() == input@,
            r.position() == (Span { start: 0, end: 0 }),
    {
        Lexer { input, start: 0, end: 0 }
    }

    /// A lexer that starts in the middle of a text: at the byte `start`, or
    /// at the end of the text where `start` lies behind it.
    pub fn starting_at(input: &'a [u8], start: usize) -> (r: Lexer<'a>)
        ensures
            r.source() == input@,
            start <= input@.len() ==> r.position() == (Span { start, end: start }),
            start > input@.len() ==> r.position() == (Span {
                start: input@.len() as usize,
                end: input@.len() as usize,
            }),
    {
        let at = if start <= input.len() {
            start
        } else {
            input.len()
        };
        Lexer { input, start: at, end: at }
    }

    /// Where the last lexeme stood. After the last token of the text this
    /// is the empty span at the end of the text.
    pub fn span(&self) -> (r: Span)
        ensures
            r == self.position(),
            r.start <= r.end <= self.source().len(),
    {
        proof {
            use_type_invariant(self);
        }
        Span { start: self.start, end: self.end }
    }

    /// The bytes of the last lexeme.
    pub fn slice(&self) -> (r: &'a [u8])
        ensures
            r@ == self.source().subrange(
                self.position().start as int,
                self.position().end as int,
            ),
    {
        proof {
            use_type_invariant(self);
        }
        slice_subrange(self.input, self.start, self.end)
    }

    /// The next token of the text, an error for a piece of the text that is
    /// no token, or `None` at the end of the text.
    pub fn next(&mut self) -> (r: Option<Result<Token, LexingError>>)
        ensures
            final(self).source() == old(self).source(),
            match scan(old(self).source(), old(self).position().end as int) {
                None => r is None && final(self).position() == (Span {
                    start: old(self).source().len() as usize,
                    end: old(self).source().len() as usize,
                }),
                Some(lexeme) => final(self).position().start == lexeme.start
                    && final(self).position().end == lexeme.end && (match lexeme.token {
                    Some(token) => r == Some(Ok::<Token, LexingError>(token)),
                    None => r == Some(Err::<Token, LexingError>(LexingError::CouldNotParse)),
                }),
            },
    {
        proof {
            use_type_invariant(&*self);
        }
        let input = self.input;
        let mut at = self.end;
        loop
            invariant
                at <= input.len(),
                input == self.input,
                self.start <= self.end <= self.input@.len(),
                *self == *old(self),
                scan(input@, at as int) == scan(input@, old(self).end as int),
            decreases input.len() - at,
        {
            if at >= input.len() {
                *self = Lexer { input, start: input.len(), end: input.len() };
                return None;
            }
            let (rule, end) = best_rule(input, at);
            if end <= at {
                let width = char_len_at(input, at);
                *self = Lexer { input, start: at, end: at + width };
                return Some(Err(LexingError::CouldNotParse));
            }
            if rule != BLANK {
                let token = make(rule, input, at, end);
                *self = Lexer { input, start: at, end };
                return match token {
                    Some(token) => Some(Ok(token)),
                    None => Some(Err(LexingError::CouldNotParse)),
                };
            }
            at = end;
        }
    }
}

impl Token {
    /// A lexer over the bytes of a text.
    pub fn lexer<'a>(input: &'a str) -> (r: Lexer<'a>)
        ensures
            r.source() == input.spec_bytes(),
            r.position() == (Span { start: 0, end: 0 }),
    {
        Lexer::new(input.as_bytes())
    }
}

} // verus!
