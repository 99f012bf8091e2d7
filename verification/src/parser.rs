//! Parsing: from a text to the quantity it denotes.

use vstd::prelude::*;
use vstd::string::StringSliceAdditionalSpecFns;
use vstd::utf8::{encode_utf8, is_char_boundary};

use crate::error::{ParseError, ParseErrorReason, Span};
use crate::evaluator::{lemma_step_depth, Evaluator, State};
use crate::lexer::{lemma_scan_progress, scan, Lexer};
use crate::quantity::DynQuantity;

verus! {

/// Why a text denotes no quantity, and the place in the text at which that
/// was found.
#[derive(Debug, Clone, PartialEq, Eq)]
pub struct Failure {
    pub reason: ParseErrorReason,
    pub span: Span,
}

/// The empty span at the end of a text.
pub open spec fn end_of(s: Seq<u8>) -> Span {
    Span { start: s.len() as usize, end: s.len() as usize }
}

/// What the text from `at` on makes of the evaluator state `state`: the
/// tokens are taken one by one until one cannot be taken or the text ends.
/// A failure lies at the lexeme that caused it, and at the end of the text
/// where the text lacks something.
pub open spec fn run(s: Seq<u8>, at: int, state: State) -> Result<DynQuantity, Failure>
    decreases s.len() - at,
    via run_decreases
{
    match scan(s, at) {
        None => match state.finish() {
            Ok(quantity) => Ok(quantity),
            Err(reason) => Err(Failure { reason, span: end_of(s) }),
        },
        Some(lexeme) => {
            let span = Span { start: lexeme.start as usize, end: lexeme.end as usize };
            match lexeme.token {
                None => Err(Failure { reason: ParseErrorReason::UnexpectedToken, span }),
                Some(token) => match state.step(token) {
                    Err(reason) => Err(Failure { reason, span }),
                    Ok(next) => run(s, lexeme.end, next),
                },
            }
        },
    }
}

#[via_fn]
proof fn run_decreases(s: Seq<u8>, at: int, state: State) {
    if at >= 0 {
        lemma_scan_progress(s, at);
    }
}

/// The quantity that a text denotes, or why it denotes none.
pub open spec fn spec_parse(s: Seq<u8>) -> Result<DynQuantity, Failure> {
    run(s, 0, State::initial())
}

/// Parses the bytes of a text from the byte `start` on into the quantity
/// they denote. The places of numbers and of a failure count from the
/// beginning of the text. A `start` behind the text counts as its end.
pub fn parse_from(input: &[u8], start: usize) -> (r: Result<DynQuantity, Failure>)
    ensures
        r == run(
            input@,
            if start <= input@.len() {
                start as int
            } else {
                input@.len() as int
            },
            State::initial(),
        ),
        r matches Err(failure) ==> failure.span.start <= failure.span.end <= input@.len(),
{
    let mut lexer = Lexer::starting_at(input, start);
    let mut evaluator = Evaluator::new();
    let ghost goal = run(input@, lexer.position().end as int, State::initial());
    loop
        invariant
            goal == run(
                input@,
                if start <= input@.len() {
                    start as int
                } else {
                    input@.len() as int
                },
                State::initial(),
            ),
            lexer.source() == input@,
            lexer.position().end <= input@.len(),
            evaluator@.depth <= lexer.position().end,
            run(input@, lexer.position().end as int, evaluator@) == goal,
        decreases input@.len() - lexer.position().end,
    {
        let ghost at = lexer.position().end as int;
        let ghost state = evaluator@;
        proof {
            lemma_scan_progress(input@, at);
        }
        let next = lexer.next();
        let span = lexer.span();
        match next {
            None => {
                return match evaluator.finish() {
                    Ok(quantity) => Ok(quantity),
                    Err(reason) => Err(Failure { reason, span }),
                };
            },
            Some(Err(_)) => {
                return Err(Failure { reason: ParseErrorReason::UnexpectedToken, span });
            },
            Some(Ok(token)) => {
                proof {
                    lemma_step_depth(state, token);
                }
                match evaluator.step(token) {
                    Ok(after) => {
                        evaluator = after;
                    },
                    Err(reason) => {
                        return Err(Failure { reason, span });
                    },
                }
            },
        }
    }
}

/// Parses the bytes of a text into the quantity they denote.
pub fn parse_bytes(input: &[u8]) -> (r: Result<DynQuantity, Failure>)
    ensures
        r == spec_parse(input@),
        r matches Err(failure) ==> failure.span.start <= failure.span.end <= input@.len(),
{
    parse_from(input, 0)
}

/// What the part of a text that a span marks denotes: the text is read
/// from the start of the span and ends at its end. `None` where the span
/// does not lie in the text.
pub open spec fn spec_parse_within(s: Seq<u8>, span: Span) -> Option<Result<DynQuantity, Failure>> {
    if span.start <= span.end <= s.len() {
        Some(run(s.subrange(0, span.end as int), span.start as int, State::initial()))
    } else {
        None
    }
}

/// Parses the part of a text that a span marks. The places of numbers and
/// of a failure count from the beginning of the whole text. `None` where
/// the span does not lie in the text.
pub fn parse_within(input: &[u8], span: Span) -> (r: Option<Result<DynQuantity, Failure>>)
    ensures
        r == spec_parse_within(input@, span),
{
    if span.start <= span.end && span.end <= input.len() {
        Some(parse_from(vstd::slice::slice_subrange(input, 0, span.end), span.start))
    } else {
        None
    }
}

/// Whether a span can be cut out of a text as text: both of its ends lie
/// between two characters.
pub open spec fn cuts_chars(s: Seq<u8>, span: Span) -> bool {
    &&& is_char_boundary(s, span.end as int)
    &&& is_char_boundary(s.subrange(0, span.end as int), span.start as int)
}

/// The part of a text that a span marks.
fn substring(input: &str, span: Span) -> (r: String)
    requires
        span.start <= span.end <= input.spec_bytes().len(),
        cuts_chars(input.spec_bytes(), span),
    ensures
        encode_utf8(r@) == input.spec_bytes().subrange(span.start as int, span.end as int),
{
    let (head, _) = input.split_at(span.end);
    let (_, piece) = head.split_at(span.start);
    assert(piece.spec_bytes() =~= input.spec_bytes().subrange(
        span.start as int,
        span.end as int,
    ));
    piece.to_owned()
}

/// Parses a text into the quantity it denotes. A text that denotes none is
/// answered with the reason, the place in the text at which the reason was
/// found, and the piece of the text at that place.
pub fn parse(input: &str) -> (r: Result<DynQuantity, ParseError>)
    ensures
        match spec_parse(input.spec_bytes()) {
            Ok(quantity) => r == Ok::<DynQuantity, ParseError>(quantity),
            Err(failure) => r matches Err(e) && e.reason == failure.reason && e.span
                == failure.span && cuts_chars(input.spec_bytes(), e.span) && encode_utf8(
                e.substring@,
            ) == input.spec_bytes().subrange(e.span.start as int, e.span.end as int),
        },
{
    let text = input.as_bytes();
    match parse_bytes(text) {
        Ok(quantity) => Ok(quantity),
        Err(failure) => {
            proof {
                let bytes = input.spec_bytes();
                assert(bytes.len() == text.len());
                vstd::utf8::encode_utf8_valid_utf8(input@);
                vstd::utf8::is_char_boundary_start_end_of_seq(bytes);
                crate::boundary::lemma_failure_boundaries(bytes, 0, State::initial());
                crate::boundary::lemma_cut(bytes, failure.span);
            }
            let piece = substring(input, failure.span);
            Err(ParseError { substring: piece, span: failure.span, reason: failure.reason })
        },
    }
}

} // verus!
