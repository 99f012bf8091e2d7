//! Vectors of quantities written as one text: the elements in square
//! brackets, separated by commas, and behind the closing bracket a unit
//! that all of them share, as in `[1, 2e-3, 3e3] m`.

use vstd::prelude::*;

use crate::error::Span;
use crate::parser::{parse_from, parse_within, run, spec_parse_within, Failure};
use crate::evaluator::State;
use crate::quantity::DynQuantity;

verus! {

/// `[`
pub const OPENING: u8 = 0x5B;

/// `]`
pub const CLOSING: u8 = 0x5D;

/// `,`
pub const COMMA: u8 = 0x2C;

/// Whether a byte separates the elements of a vector.
pub open spec fn is_separator(b: u8) -> bool {
    b == OPENING || b == COMMA || b == CLOSING
}

/// The position of the first closing bracket at or behind `from`, or the
/// length of the text where there is none.
pub open spec fn closing_from(s: Seq<u8>, from: int) -> int
    decreases s.len() - from,
{
    if from < 0 || from >= s.len() {
        s.len() as int
    } else if s[from] == CLOSING {
        from
    } else {
        closing_from(s, from + 1)
    }
}

/// The position behind the element that starts at `at`: that of the next
/// separator before `to`, or `to`.
pub open spec fn element_end(s: Seq<u8>, at: int, to: int) -> int
    decreases to - at,
{
    if at < 0 || at >= to || at >= s.len() || is_separator(s[at]) {
        at
    } else {
        element_end(s, at + 1, to)
    }
}

/// The elements of the text between `from` and `to`: the pieces between
/// separators that are not empty, in their order.
pub open spec fn elements(s: Seq<u8>, from: int, to: int) -> Seq<Span>
    decreases to - from,
{
    if from < 0 || from >= to || to > s.len() {
        Seq::empty()
    } else if is_separator(s[from]) {
        elements(s, from + 1, to)
    } else if from < element_end(s, from, to) <= to {
        seq![Span { start: from as usize, end: element_end(s, from, to) as usize }] + elements(
            s,
            element_end(s, from, to),
            to,
        )
    } else {
        Seq::empty()
    }
}

/// An element ends in the range, and behind its start where it starts with
/// a byte that is no separator.
proof fn lemma_element_end(s: Seq<u8>, at: int, to: int)
    requires
        0 <= at <= to <= s.len(),
    ensures
        at <= element_end(s, at, to) <= to,
        at < to && !is_separator(s[at]) ==> at < element_end(s, at, to),
    decreases to - at,
{
    if at < to && !is_separator(s[at]) {
        lemma_element_end(s, at + 1, to);
    }
}

/// Why a text is no vector of quantities.
#[derive(Debug, Clone, PartialEq, Eq)]
pub enum VectorError {
    /// The text has no closing bracket.
    NoClosingBracket,
    /// What stands behind the closing bracket denotes no quantity.
    Unit(Failure),
    /// The product of an element and the unit has an exponent that leaves
    /// the range of `i32`; the span is that of the element.
    Overflow(Span),
}

/// What one element adds to a vector: the quantity it denotes, multiplied
/// by `unit`, or nothing where it denotes no quantity.
pub open spec fn element_product(s: Seq<u8>, span: Span, unit: DynQuantity) -> Result<
    Option<DynQuantity>,
    VectorError,
> {
    match spec_parse_within(s, span) {
        Some(Ok(quantity)) => match quantity.spec_checked_mul(unit) {
            None => Err(VectorError::Overflow(span)),
            Some(product) => Ok(Some(product)),
        },
        _ => Ok(None),
    }
}

/// The quantities that the elements `spans[from..]` denote, each multiplied
/// by `unit`. An element that denotes no quantity is passed over.
pub open spec fn products(s: Seq<u8>, spans: Seq<Span>, from: int, unit: DynQuantity) -> Result<
    Seq<DynQuantity>,
    VectorError,
>
    decreases spans.len() - from,
{
    if from < 0 || from >= spans.len() {
        Ok(Seq::empty())
    } else {
        match element_product(s, spans[from], unit) {
            Err(e) => Err(e),
            Ok(first) => match products(s, spans, from + 1, unit) {
                Err(e) => Err(e),
                Ok(rest) => match first {
                    Some(product) => Ok(seq![product] + rest),
                    None => Ok(rest),
                },
            },
        }
    }
}

/// The vector of quantities that a text denotes: the text up to the first
/// closing bracket holds the elements, what follows the bracket is the
/// unit, and every element is multiplied by it.
pub open spec fn spec_parse_vector(s: Seq<u8>) -> Result<Seq<DynQuantity>, VectorError> {
    let closing = closing_from(s, 0);
    if closing >= s.len() {
        Err(VectorError::NoClosingBracket)
    } else {
        match run(s, closing + 1, State::initial()) {
            Err(failure) => Err(VectorError::Unit(failure)),
            Ok(unit) => products(s, elements(s, 0, closing + 1), 0, unit),
        }
    }
}

/// The position of the first closing bracket, if there is one.
pub fn find_closing(input: &[u8]) -> (r: Option<usize>)
    ensures
        match r {
            Some(at) => at < input@.len() && at == closing_from(input@, 0),
            None => closing_from(input@, 0) == input@.len(),
        },
{
    let mut i: usize = 0;
    while i < input.len() && input[i] != CLOSING
        invariant
            i <= input.len(),
            closing_from(input@, i as int) == closing_from(input@, 0),
        decreases input.len() - i,
    {
        i += 1;
    }
    if i < input.len() {
        Some(i)
    } else {
        None
    }
}

/// The elements of the text before `to`.
pub fn split_elements(input: &[u8], to: usize) -> (r: Vec<Span>)
    requires
        to <= input@.len(),
    ensures
        r@ == elements(input@, 0, to as int),
{
    let mut found: Vec<Span> = Vec::new();
    let mut at: usize = 0;
    while at < to
        invariant
            at <= to <= input@.len(),
            found@ + elements(input@, at as int, to as int) == elements(input@, 0, to as int),
        decreases to - at,
    {
        let b = input[at];
        if b == OPENING || b == COMMA || b == CLOSING {
            at += 1;
        } else {
            let mut end: usize = at + 1;
            while end < to && !(input[end] == OPENING || input[end] == COMMA || input[end]
                == CLOSING)
                invariant
                    at < end <= to <= input@.len(),
                    !is_separator(input@[at as int]),
                    element_end(input@, at as int, to as int) == element_end(
                        input@,
                        end as int,
                        to as int,
                    ),
                decreases to - end,
            {
                end += 1;
            }
            proof {
                lemma_element_end(input@, at as int, to as int);
                assert(found@.push(Span { start: at, end }) =~= found@ + seq![
                    Span { start: at, end },
                ]);
                assert(found@ + (seq![Span { start: at, end }] + elements(
                    input@,
                    end as int,
                    to as int,
                )) =~= found@.push(Span { start: at, end }) + elements(
                    input@,
                    end as int,
                    to as int,
                ));
            }
            found.push(Span { start: at, end });
            at = end;
        }
    }
    assert(found@ + Seq::<Span>::empty() =~= found@);
    found
}

/// What one element adds to a vector.
fn multiply_element(input: &[u8], span: Span, unit: &DynQuantity) -> (r: Result<
    Option<DynQuantity>,
    VectorError,
>)
    ensures
        r == element_product(input@, span, *unit),
{
    match parse_within(input, span) {
        Some(Ok(quantity)) => match quantity.checked_mul(unit.clone()) {
            None => Err(VectorError::Overflow(span)),
            Some(product) => Ok(Some(product)),
        },
        _ => Ok(None),
    }
}

/// The quantities that elements denote, each multiplied by `unit`.
fn multiply_elements(input: &[u8], spans: &Vec<Span>, unit: &DynQuantity) -> (r: Result<
    Vec<DynQuantity>,
    VectorError,
>)
    ensures
        match products(input@, spans@, 0, *unit) {
            Ok(quantities) => r matches Ok(found) && found@ == quantities,
            Err(e) => r matches Err(error) && error == e,
        },
{
    let mut found: Vec<DynQuantity> = Vec::new();
    let mut i: usize = 0;
    let ghost goal = products(input@, spans@, 0, *unit);
    assert(goal is Ok ==> Seq::<DynQuantity>::empty() + goal->Ok_0 =~= goal->Ok_0);
    while i < spans.len()
        invariant
            i <= spans.len(),
            goal == products(input@, spans@, 0, *unit),
            match products(input@, spans@, i as int, *unit) {
                Ok(rest) => goal == Ok::<Seq<DynQuantity>, VectorError>(found@ + rest),
                Err(e) => goal == Err::<Seq<DynQuantity>, VectorError>(e),
            },
        decreases spans.len() - i,
    {
        let ghost rest = products(input@, spans@, i as int + 1, *unit);
        match multiply_element(input, spans[i], unit) {
            Err(e) => {
                return Err(e);
            },
            Ok(Some(product)) => {
                proof {
                    if rest is Ok {
                        assert(found@.push(product) + rest->Ok_0 =~= found@ + (seq![product]
                            + rest->Ok_0));
                    }
                }
                found.push(product);
            },
            Ok(None) => {},
        }
        i += 1;
    }
    assert(found@ + Seq::<DynQuantity>::empty() =~= found@);
    Ok(found)
}

/// Parses a vector of quantities with a unit behind it.
pub fn parse_vector(input: &[u8]) -> (r: Result<Vec<DynQuantity>, VectorError>)
    ensures
        match spec_parse_vector(input@) {
            Ok(quantities) => r matches Ok(found) && found@ == quantities,
            Err(e) => r matches Err(error) && error == e,
        },
{
    let closing = match find_closing(input) {
        None => {
            return Err(VectorError::NoClosingBracket);
        },
        Some(at) => at,
    };
    assert(closing < input.len());
    let unit = match parse_from(input, closing + 1) {
        Err(failure) => {
            return Err(VectorError::Unit(failure));
        },
        Ok(unit) => unit,
    };
    let spans = split_elements(input, closing + 1);
    multiply_elements(input, &spans, &unit)
}

/// The first index below `limit` at which a flag differs from the first
/// flag, if there is one.
pub open spec fn first_difference(flags: Seq<bool>, limit: int) -> Option<int>
    decreases limit,
{
    if limit <= 0 {
        None
    } else {
        match first_difference(flags, limit - 1) {
            Some(i) => Some(i),
            None => if flags[limit - 1] != flags[0] {
                Some(limit - 1)
            } else {
                None
            },
        }
    }
}

/// Whether the elements of a vector are all of one kind. The elements of a
/// vector are either all written with their units or all without; `flags`
/// says of each element whether it is written with a unit. The answer is
/// the index of the first element that is not of the kind of the first, or
/// `None` where all are of one kind.
pub fn mixed_at(flags: &[bool]) -> (r: Option<usize>)
    ensures
        match r {
            Some(i) => first_difference(flags@, flags@.len() as int) == Some(i as int),
            None => first_difference(flags@, flags@.len() as int) is None,
        },
        r matches Some(i) ==> i < flags@.len() && flags@[i as int] != flags@[0] && forall|k: int|
            0 <= k < i ==> #[trigger] flags@[k] == flags@[0],
        r is None ==> forall|k: int| 0 <= k < flags@.len() ==> #[trigger] flags@[k] == flags@[0],
{
    let mut i: usize = 0;
    while i < flags.len()
        invariant
            i <= flags.len(),
            first_difference(flags@, i as int) is None,
            forall|k: int| 0 <= k < i ==> #[trigger] flags@[k] == flags@[0],
        decreases flags.len() - i,
    {
        if flags[i] != flags[0] {
            proof {
                lemma_difference_stays(flags@, i as int + 1, flags@.len() as int);
            }
            return Some(i);
        }
        i += 1;
    }
    None
}

/// A difference found below one limit is the one found below every larger
/// limit.
proof fn lemma_difference_stays(flags: Seq<bool>, limit: int, larger: int)
    requires
        0 <= limit <= larger,
        first_difference(flags, limit) is Some,
    ensures
        first_difference(flags, larger) == first_difference(flags, limit),
    decreases larger - limit,
{
    if limit < larger {
        lemma_difference_stays(flags, limit, larger - 1);
    }
}

} // verus!
