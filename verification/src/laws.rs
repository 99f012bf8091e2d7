//! What holds of the evaluator whatever tokens it is fed.

use vstd::prelude::*;

use crate::error::{ParseErrorReason, UnitsNotEqual};
use crate::evaluator::{checked_sum, combine, Operation, PreviousToken, State};
use crate::lexer::{lemma_scan_progress, scan};
use crate::magnitude::{Factor, Magnitude};
use crate::parser::{run, spec_parse};
use crate::quantity::DynQuantity;
use crate::token::{Conversion, Exponents, Meaning, Token};
use crate::unit::fits_i32;

verus! {

/// The state after a run of tokens, or the reason for which the first token
/// that cannot be taken is refused.
pub open spec fn feed(state: State, tokens: Seq<Token>) -> Result<State, ParseErrorReason>
    decreases tokens.len(),
{
    if tokens.len() == 0 {
        Ok(state)
    } else {
        match state.step(tokens.first()) {
            Ok(next) => feed(next, tokens.drop_first()),
            Err(reason) => Err(reason),
        }
    }
}

/// The number of opening brackets among tokens.
pub open spec fn opened(tokens: Seq<Token>) -> nat
    decreases tokens.len(),
{
    if tokens.len() == 0 {
        0
    } else if tokens.first() is LeftBracket {
        1 + opened(tokens.drop_first())
    } else {
        opened(tokens.drop_first())
    }
}

/// The number of closing brackets among tokens.
pub open spec fn closed(tokens: Seq<Token>) -> nat
    decreases tokens.len(),
{
    if tokens.len() == 0 {
        0
    } else if tokens.first() is RightBracket {
        1 + closed(tokens.drop_first())
    } else {
        closed(tokens.drop_first())
    }
}

/// The multiplication sign is optional: where a quantity is active and the
/// last token was no operator, a `*` before the next token changes nothing,
/// unless that token is itself `*` or `/`, or a number that follows a
/// number.
pub proof fn lemma_multiplication_sign_is_optional(state: State, token: Token)
    requires
        state.active is Some,
        state.previous.spec_is_operand(),
        !(token is Mul),
        !(token is Div),
        !(state.previous == PreviousToken::Number && (token is Real || token is Imag)),
    ensures
        state.step(Token::Mul) is Ok,
        state.step(Token::Mul)->Ok_0.step(token) == state.step(token),
{
}

/// Feeding a run of tokens and then another is feeding both in a row.
pub proof fn lemma_feed_in_parts(state: State, first: Seq<Token>, second: Seq<Token>)
    ensures
        feed(state, first + second) == match feed(state, first) {
            Ok(middle) => feed(middle, second),
            Err(reason) => Err(reason),
        },
    decreases first.len(),
{
    if first.len() == 0 {
        assert(first + second =~= second);
    } else {
        assert((first + second).first() == first.first());
        assert((first + second).drop_first() =~= first.drop_first() + second);
        match state.step(first.first()) {
            Ok(next) => {
                lemma_feed_in_parts(next, first.drop_first(), second);
            },
            Err(_) => {},
        }
    }
}

/// The multiplication sign is optional anywhere among tokens: a `*` may be
/// put before a token, or left out, without any change to what the tokens
/// denote, where the tokens before it leave an active quantity and do not
/// end with an operator, and the token is neither `*` nor `/`, nor a number
/// behind a number.
pub proof fn lemma_multiplication_sign_is_optional_among_tokens(
    state: State,
    before: Seq<Token>,
    token: Token,
    after: Seq<Token>,
)
    requires
        feed(state, before) is Ok,
        feed(state, before)->Ok_0.active is Some,
        feed(state, before)->Ok_0.previous.spec_is_operand(),
        !(token is Mul),
        !(token is Div),
        !(feed(state, before)->Ok_0.previous == PreviousToken::Number && (token is Real
            || token is Imag)),
    ensures
        feed(state, before + seq![Token::Mul, token] + after) == feed(
            state,
            before + seq![token] + after,
        ),
{
    let middle = feed(state, before)->Ok_0;
    lemma_multiplication_sign_is_optional(middle, token);
    let with_sign = seq![Token::Mul, token];
    let without = seq![token];
    assert(before + with_sign + after =~= before + (with_sign + after));
    assert(before + without + after =~= before + (without + after));
    lemma_feed_in_parts(state, before, with_sign + after);
    lemma_feed_in_parts(state, before, without + after);
    lemma_feed_in_parts(middle, with_sign, after);
    lemma_feed_in_parts(middle, without, after);
    reveal_with_fuel(feed, 3);
    assert(with_sign.drop_first() =~= seq![token]);
    assert(with_sign.drop_first().drop_first() =~= Seq::<Token>::empty());
    assert(without.drop_first() =~= Seq::<Token>::empty());
}

/// Sums need equal units: two quantities are added if and only if their
/// units are equal, and otherwise the sum is refused with both units, that
/// of the quantity that was built last first. This holds wherever a
/// waiting summand is added.
pub proof fn lemma_sums_need_equal_units(acc: DynQuantity, item: DynQuantity)
    ensures
        checked_sum(acc, item) is Ok <==> acc.unit == item.unit,
        acc.unit != item.unit ==> checked_sum(acc, item) == Err::<DynQuantity, ParseErrorReason>(
            ParseErrorReason::UnitsOfSummandsNotIdentical(UnitsNotEqual(acc.unit, item.unit)),
        ),
        combine(Operation::Add(item), acc) == checked_sum(acc, item),
{
}

/// A closing bracket without an open one is refused as unbalanced, and so
/// is the end of a text at which a bracket is still open.
pub proof fn lemma_unbalanced_brackets_are_refused(state: State, n: i32)
    ensures
        state.depth == 0 ==> state.step(Token::RightBracket(n)) == Err::<State, ParseErrorReason>(
            ParseErrorReason::UnbalancedBrackets,
        ),
        state.depth != 0 ==> state.finish() == Err::<DynQuantity, ParseErrorReason>(
            ParseErrorReason::UnbalancedBrackets,
        ),
{
}

/// The evaluator counts brackets: after tokens that it could take, the
/// brackets that are open are those that were open before and those opened
/// since, less those closed since.
pub proof fn lemma_depth_counts_brackets(state: State, tokens: Seq<Token>)
    ensures
        match feed(state, tokens) {
            Ok(end) => end.depth + closed(tokens) == state.depth + opened(tokens),
            Err(_) => true,
        },
    decreases tokens.len(),
{
    if tokens.len() > 0 {
        match state.step(tokens.first()) {
            Ok(next) => {
                lemma_depth_counts_brackets(next, tokens.drop_first());
            },
            Err(_) => {},
        }
    }
}

/// Brackets balance: tokens that denote a quantity hold as many closing
/// brackets as opening ones.
pub proof fn lemma_brackets_balance(tokens: Seq<Token>)
    requires
        feed(State::initial(), tokens) is Ok,
        feed(State::initial(), tokens)->Ok_0.finish() is Ok,
    ensures
        opened(tokens) == closed(tokens),
{
    lemma_depth_counts_brackets(State::initial(), tokens);
}

impl State {
    /// Whether a division that waits for its right-hand side has its
    /// left-hand side on top of the stack, and `/` or a sign as last token.
    pub open spec fn division_waits(self) -> bool {
        self.division_pending ==> {
            &&& self.stack.len() > 0
            &&& self.stack.last() is Div
            &&& (self.previous == PreviousToken::Div || self.previous.spec_is_sign())
            &&& (self.previous == PreviousToken::Div ==> self.active is None)
        }
    }
}

/// A pending division always finds its left-hand side: this holds before
/// the first token and every token keeps it. So the evaluator never misses
/// the left-hand side of a division.
pub proof fn lemma_division_waits(state: State, token: Token)
    requires
        state.division_waits(),
    ensures
        State::initial().division_waits(),
        match state.step(token) {
            Ok(next) => next.division_waits(),
            Err(_) => true,
        },
        state.division_pending ==> state.settle(PreviousToken::Other) != Err::<
            State,
            ParseErrorReason,
        >(ParseErrorReason::UnbalancedBrackets),
{
}

/// A metric prefix is a power of ten. Behind a value, a unit symbol with
/// the prefix of power `x` and the same symbol without prefix behind the
/// power of ten `x` are taken alike or refused alike. Where they are taken
/// they leave the same unit, the same stack, and values that differ only
/// in when the power of ten is multiplied in: at once with what the unit
/// itself carries, or before it.
pub proof fn lemma_prefix_is_power_of_ten(state: State, prefixed: Token, bare: Token, x: i32)
    requires
        state.active is Some,
        !state.division_pending,
        prefixed.spec_meaning() is Some,
        prefixed.spec_meaning()->0.conversion == Conversion::Plain,
        prefixed.spec_meaning()->0.exponents == (Exponents { unit: 1, prefix: x }),
        bare.spec_meaning() == Some(
            Meaning { exponents: Exponents { unit: 1, prefix: 0 }, ..prefixed.spec_meaning()->0 },
        ),
        fits_i32(x + prefixed.spec_meaning()->0.shift),
    ensures
        state.step(Token::PowerOfTen(x)) is Ok,
        state.step(prefixed) is Ok <==> state.step(Token::PowerOfTen(x))->Ok_0.step(bare) is Ok,
        state.step(prefixed) matches Ok(short) ==> {
            let long = state.step(Token::PowerOfTen(x))->Ok_0.step(bare)->Ok_0;
            let value = state.active->0.value;
            let shift = prefixed.spec_meaning()->0.shift;
            &&& short.active is Some
            &&& long.active is Some
            &&& short.active->0.unit == long.active->0.unit
            &&& short.active->0.value == Magnitude::Scaled(
                Box::new(value),
                Factor::Ten((x + shift) as i32),
            )
            &&& long.active->0.value == Magnitude::Scaled(
                Box::new(Magnitude::Scaled(Box::new(value), Factor::Ten(x))),
                Factor::Ten(shift),
            )
            &&& short.stack == long.stack
            &&& short.depth == long.depth
            &&& short.previous == long.previous
            &&& short.division_pending == long.division_pending
        },
{
    let m = prefixed.spec_meaning()->0;
    assert(1 * (x + m.shift) == x + m.shift);
    assert(1 * (0 + m.shift) == m.shift);
}

/// The tokens of a text from `at` on, up to its end or to the first piece
/// that is no token.
pub open spec fn tokens(s: Seq<u8>, at: int) -> Seq<Token>
    decreases s.len() - at,
    via tokens_decreases
{
    match scan(s, at) {
        Some(lexeme) => match lexeme.token {
            Some(token) => seq![token] + tokens(s, lexeme.end),
            None => Seq::empty(),
        },
        None => Seq::empty(),
    }
}

#[via_fn]
proof fn tokens_decreases(s: Seq<u8>, at: int) {
    if at >= 0 {
        lemma_scan_progress(s, at);
    }
}

/// A text that denotes a quantity denotes what the evaluator makes of its
/// tokens.
pub proof fn lemma_parse_feeds_tokens(s: Seq<u8>, at: int, state: State)
    requires
        0 <= at,
        run(s, at, state) is Ok,
    ensures
        feed(state, tokens(s, at)) is Ok,
        feed(state, tokens(s, at))->Ok_0.finish() == Ok::<DynQuantity, ParseErrorReason>(
            run(s, at, state)->Ok_0,
        ),
    decreases s.len() - at,
{
    lemma_scan_progress(s, at);
    match scan(s, at) {
        None => {},
        Some(lexeme) => {
            let token = lexeme.token->0;
            let next = state.step(token)->Ok_0;
            let rest = tokens(s, lexeme.end);
            lemma_parse_feeds_tokens(s, lexeme.end, next);
            assert((seq![token] + rest).first() == token);
            assert((seq![token] + rest).drop_first() =~= rest);
        },
    }
}

/// In a text that denotes a quantity the brackets balance: it holds as many
/// closing brackets as opening ones.
pub proof fn lemma_parsed_brackets_balance(s: Seq<u8>)
    requires
        spec_parse(s) is Ok,
    ensures
        opened(tokens(s, 0)) == closed(tokens(s, 0)),
{
    lemma_parse_feeds_tokens(s, 0, State::initial());
    lemma_brackets_balance(tokens(s, 0));
}

} // verus!
