//! Lexemes and characters: in a text, every lexeme starts and ends between
//! two characters, so that it can be cut out of the text as text.

use vstd::prelude::*;
use vstd::utf8::{
    is_char_boundary, is_char_boundary_iff_is_leading_byte,
    is_char_boundary_iff_not_is_continuation_byte, is_char_boundary_start_end_of_seq,
    is_leading_byte_width_1, is_leading_byte_width_2, valid_utf8, valid_utf8_split,
};

use crate::error::Span;
use crate::evaluator::State;
use crate::lexer::{
    bare_end, best, has_inf, has_infinity, infinity_end, lemma_best_is_longest,
    lemma_rule_end_bounds, prefix_end, rule_end, scan, BLANK, E_POWER, FIRST_SYMBOL, IMAG,
    INFINITY, NEG_INFINITY, REAL, RIGHT_BRACKET, RULES, STAR_POWER,
};
use crate::parser::{cuts_chars, run};
use crate::scan::{
    after, blanks_end, digits_end, exponent_end, has, is_blank, is_digit, number_end, DOT, MINUS,
    SPACE,
};
use crate::symbol::{char_len, symbol_text, SYMBOLS};

verus! {

/// Behind a character comes the next one: from a place between two
/// characters, the bytes of one character lead to such a place again, and
/// not beyond the text.
pub proof fn lemma_next_boundary(s: Seq<u8>, at: int)
    requires
        valid_utf8(s),
        0 <= at < s.len(),
        is_char_boundary(s, at),
    ensures
        at < at + char_len(s, at) <= s.len(),
        is_char_boundary(s, at + char_len(s, at)),
        is_leading_byte_width_1(s[at]) ==> char_len(s, at) == 1,
        is_leading_byte_width_2(s[at]) ==> char_len(s, at) == 2,
{
    reveal_with_fuel(valid_utf8, 3);
    let rest = s.subrange(at, s.len() as int);
    valid_utf8_split(s, at);
    assert(rest[0] == s[at]);
    is_char_boundary_iff_is_leading_byte(s, at);
    let width = char_len(s, at);
    let next = at + width;
    is_char_boundary_start_end_of_seq(s);
    if next < s.len() {
        let tail = vstd::utf8::pop_first_scalar(rest);
        assert(tail.len() > 0);
        assert(tail[0] == s[next]);
        assert(valid_utf8(rest));
        assert(valid_utf8(tail));
        assert(vstd::utf8::valid_first_scalar(tail));
        is_char_boundary_iff_not_is_continuation_byte(s, next);
    }
}

/// The place behind a character of one byte lies between two characters.
pub proof fn lemma_boundary_behind_one(s: Seq<u8>, end: int)
    requires
        valid_utf8(s),
        0 < end <= s.len(),
        is_leading_byte_width_1(s[end - 1]),
    ensures
        is_char_boundary(s, end),
{
    is_char_boundary_iff_not_is_continuation_byte(s, end - 1);
    lemma_next_boundary(s, end - 1);
}

/// The place behind a character of two bytes lies between two characters.
pub proof fn lemma_boundary_behind_two(s: Seq<u8>, end: int)
    requires
        valid_utf8(s),
        2 <= end <= s.len(),
        is_leading_byte_width_2(s[end - 2]),
    ensures
        is_char_boundary(s, end),
{
    is_char_boundary_iff_not_is_continuation_byte(s, end - 2);
    lemma_next_boundary(s, end - 2);
}

/// Whether the byte before `end` is a character of its own, or the two
/// bytes before `end` start with the first byte of a character of two
/// bytes.
pub open spec fn ends_char(s: Seq<u8>, end: int) -> bool {
    0 < end <= s.len() && (is_leading_byte_width_1(s[end - 1]) || (end >= 2
        && is_leading_byte_width_2(s[end - 2])))
}

/// Whether a word ends with a character of one or of two bytes.
pub open spec fn word_ends_char(word: Seq<u8>) -> bool {
    word.len() > 0 && (is_leading_byte_width_1(word.last()) || (word.len() >= 2
        && is_leading_byte_width_2(word[word.len() - 2])))
}

/// Behind what ends with a whole character lies a place between two
/// characters.
pub proof fn lemma_boundary_behind(s: Seq<u8>, end: int)
    requires
        valid_utf8(s),
        ends_char(s, end),
    ensures
        is_char_boundary(s, end),
{
    if is_leading_byte_width_1(s[end - 1]) {
        lemma_boundary_behind_one(s, end);
    } else {
        lemma_boundary_behind_two(s, end);
    }
}

/// A run of digits ends with a digit.
proof fn lemma_digits_last(s: Seq<u8>, at: int)
    requires
        0 <= at,
        digits_end(s, at) > at,
    ensures
        digits_end(s, at) <= s.len(),
        is_digit(s[digits_end(s, at) - 1]),
    decreases s.len() - at,
{
    if digits_end(s, at + 1) > at + 1 {
        lemma_digits_last(s, at + 1);
    }
}

/// A run of blanks ends with a blank.
proof fn lemma_blanks_last(s: Seq<u8>, at: int)
    requires
        0 <= at,
        blanks_end(s, at) > at,
    ensures
        blanks_end(s, at) <= s.len(),
        is_blank(s[blanks_end(s, at) - 1]),
    decreases s.len() - at,
{
    if blanks_end(s, at + 1) > at + 1 {
        lemma_blanks_last(s, at + 1);
    }
}

/// An exponent ends with a digit.
proof fn lemma_exponent_last(s: Seq<u8>, at: int)
    requires
        0 <= at,
        exponent_end(s, at) > at,
    ensures
        exponent_end(s, at) <= s.len(),
        is_digit(s[exponent_end(s, at) - 1]),
{
    lemma_digits_last(s, after(s, at + 1, MINUS));
}

/// A number ends with a digit.
proof fn lemma_number_last(s: Seq<u8>, at: int)
    requires
        0 <= at,
        number_end(s, at) > at,
    ensures
        number_end(s, at) <= s.len(),
        is_digit(s[number_end(s, at) - 1]),
{
    let whole = digits_end(s, at);
    if has(s, whole, DOT) && digits_end(s, whole + 1) > whole + 1 {
        lemma_digits_last(s, whole + 1);
    } else {
        lemma_digits_last(s, at);
    }
}

/// Every unit symbol ends with a character of one or of two bytes.
proof fn lemma_symbols_end_char(symbol: int)
    requires
        0 <= symbol < SYMBOLS,
    ensures
        word_ends_char(symbol_text(symbol)),
{
    let word = symbol_text(symbol);
    if symbol == 8 {
        assert(word.len() == 3 && word[2] == 0x43);
    } else if symbol == 22 {
        assert(word.len() == 2 && word[0] == 0xCE);
    } else if symbol == 24 {
        assert(word.len() == 2 && word[0] == 0xCF);
    } else if symbol == 28 {
        assert(word.len() == 2 && word[0] == 0xC2);
    } else if symbol < 12 {
        assert(word.len() > 0 && word.last() < 0x80);
    } else if symbol < 24 {
        assert(word.len() > 0 && word.last() < 0x80);
    } else {
        assert(word.len() > 0 && word.last() < 0x80);
    }
}

/// A unit symbol with its exponent ends with a whole character.
proof fn lemma_bare_ends_char(s: Seq<u8>, at: int, symbol: int)
    requires
        0 <= at,
        0 <= symbol < SYMBOLS,
        bare_end(s, at, symbol_text(symbol)) > at,
    ensures
        ends_char(s, bare_end(s, at, symbol_text(symbol))),
{
    let word = symbol_text(symbol);
    lemma_symbols_end_char(symbol);
    let behind = at + word.len();
    assert(s.subrange(at, behind) == word);
    assert(s.subrange(at, behind)[word.len() - 1] == s[behind - 1]);
    if word.len() >= 2 {
        assert(s.subrange(at, behind)[word.len() - 2] == s[behind - 2]);
    }
    if exponent_end(s, behind) > behind {
        lemma_exponent_last(s, behind);
    }
}

/// Whatever a rule reads ends with a whole character.
pub proof fn lemma_rule_ends_char(rule: int, s: Seq<u8>, at: int)
    requires
        0 <= at <= s.len(),
        rule_end(rule, s, at) > at,
    ensures
        ends_char(s, rule_end(rule, s, at)),
{
    lemma_rule_end_bounds(rule, s, at);
    let end = rule_end(rule, s, at);
    if rule == BLANK {
        lemma_blanks_last(s, at);
    } else if rule == REAL {
        lemma_number_last(s, at);
    } else if rule == IMAG {
    } else if rule == STAR_POWER {
        let ten = after(s, at + 1, SPACE);
        lemma_exponent_last(s, ten + 2);
    } else if rule == E_POWER {
        lemma_digits_last(s, after(s, at + 1, MINUS));
    } else if rule == INFINITY {
        lemma_infinity_ends_char(s, at);
    } else if rule == NEG_INFINITY {
        lemma_infinity_ends_char(s, at + 1);
    } else if rule == RIGHT_BRACKET {
        if exponent_end(s, at + 1) > at + 1 {
            lemma_exponent_last(s, at + 1);
        }
    } else if FIRST_SYMBOL <= rule < RULES {
        let symbol = rule - FIRST_SYMBOL;
        let word = symbol_text(symbol);
        let letter = prefix_end(s, at);
        if end == bare_end(s, at, word) {
            lemma_bare_ends_char(s, at, symbol);
        } else {
            lemma_bare_ends_char(s, letter, symbol);
        }
    }
}

/// The words for infinity end with a letter.
proof fn lemma_infinity_ends_char(s: Seq<u8>, at: int)
    requires
        0 <= at,
        infinity_end(s, at) > at,
    ensures
        ends_char(s, infinity_end(s, at)),
{
    let end = infinity_end(s, at);
    if has_infinity(s, at) {
        assert(s.subrange(at, at + 8)[7] == s[at + 7]);
    } else if has_inf(s, at) {
        assert(s.subrange(at, at + 3)[2] == s[at + 2]);
    } else {
        assert(s.subrange(at + 1, at + 4)[2] == s[at + 3]);
    }
}

/// A lexeme of a text starts and ends between two characters, if the
/// search for it began at such a place.
pub proof fn lemma_lexeme_boundaries(s: Seq<u8>, at: int)
    requires
        valid_utf8(s),
        0 <= at <= s.len(),
        is_char_boundary(s, at),
    ensures
        match scan(s, at) {
            Some(lexeme) => is_char_boundary(s, lexeme.start) && is_char_boundary(s, lexeme.end),
            None => true,
        },
    decreases s.len() - at,
{
    if at < s.len() {
        lemma_best_is_longest(s, at, RULES as int, 0);
        let (rule, end) = best(s, at, RULES as int);
        if end <= at {
            lemma_next_boundary(s, at);
        } else {
            lemma_rule_ends_char(rule, s, at);
            lemma_boundary_behind(s, end);
            if rule == BLANK {
                lemma_lexeme_boundaries(s, end);
            }
        }
    }
}

/// A failure lies between characters: the span of every failure of a text
/// starts and ends between two characters of the text.
pub proof fn lemma_failure_boundaries(s: Seq<u8>, at: int, state: State)
    requires
        valid_utf8(s),
        s.len() <= usize::MAX,
        0 <= at <= s.len(),
        is_char_boundary(s, at),
    ensures
        match run(s, at, state) {
            Err(failure) => failure.span.start <= failure.span.end <= s.len() && is_char_boundary(
                s,
                failure.span.start as int,
            ) && is_char_boundary(s, failure.span.end as int),
            Ok(_) => true,
        },
    decreases s.len() - at,
{
    crate::lexer::lemma_scan_progress(s, at);
    lemma_lexeme_boundaries(s, at);
    is_char_boundary_start_end_of_seq(s);
    match scan(s, at) {
        None => {},
        Some(lexeme) => match lexeme.token {
            None => {},
            Some(token) => match state.step(token) {
                Err(_) => {},
                Ok(next) => {
                    lemma_failure_boundaries(s, lexeme.end, next);
                },
            },
        },
    }
}

/// A span between characters can be cut out of the text.
pub proof fn lemma_cut(s: Seq<u8>, span: Span)
    requires
        valid_utf8(s),
        span.start <= span.end <= s.len(),
        is_char_boundary(s, span.start as int),
        is_char_boundary(s, span.end as int),
    ensures
        cuts_chars(s, span),
{
    let head = s.subrange(0, span.end as int);
    valid_utf8_split(s, span.end as int);
    is_char_boundary_start_end_of_seq(head);
    if span.start < span.end {
        is_char_boundary_iff_not_is_continuation_byte(s, span.start as int);
        is_char_boundary_iff_not_is_continuation_byte(head, span.start as int);
    }
}

} // verus!
