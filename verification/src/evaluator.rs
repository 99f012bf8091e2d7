//! The evaluator: a state machine that takes the tokens of a quantity text
//! one by one and builds the quantity that the text denotes.
//!
//! Tokens that follow each other without an operator multiply. A quantity
//! that waits for its right-hand side is kept on a stack together with the
//! operation that will combine it. An opening bracket leaves a marker on the
//! stack at which the matching closing bracket stops.

use vstd::prelude::*;

use crate::error::{ParseErrorReason, UnitsNotEqual};
use crate::magnitude::{Factor, Magnitude, Sign};
use crate::quantity::DynQuantity;
use crate::token::{no_unit, Conversion, Meaning, Token};
use crate::unit::{fits_i32, Unit};

verus! {

/// What the last token was, as far as the next token needs to know.
#[derive(Debug, Clone, Copy, PartialEq, Eq, Structural, Hash)]
pub enum PreviousToken {
    /// `+`
    Add,
    /// `-`
    Sub,
    /// `*`
    Mul,
    /// `/`
    Div,
    /// A real or an imaginary number.
    Number,
    /// Anything else, or no token yet.
    Other,
}

impl PreviousToken {
    /// Whether the last token was no operator, so that `*` or `/` may follow.
    pub open spec fn spec_is_operand(self) -> bool {
        self == PreviousToken::Other || self == PreviousToken::Number
    }

    /// Whether the last token was no operator, so that `*` or `/` may follow.
    pub fn is_operand(self) -> (r: bool)
        ensures
            r == self.spec_is_operand(),
    {
        match self {
            PreviousToken::Other => true,
            PreviousToken::Number => true,
            _ => false,
        }
    }

    /// Whether the last token was `+` or `-`.
    pub open spec fn spec_is_sign(self) -> bool {
        self == PreviousToken::Add || self == PreviousToken::Sub
    }

    /// Whether the last token was `+` or `-`.
    pub fn is_sign(self) -> (r: bool)
        ensures
            r == self.spec_is_sign(),
    {
        match self {
            PreviousToken::Add => true,
            PreviousToken::Sub => true,
            _ => false,
        }
    }
}

/// A quantity that waits on the stack, and the operation that follows it:
/// `Add(x)` stands for `x +`, `Mul(x)` for `x *` and `Div(x)` for `x /`.
#[derive(Debug, Clone, PartialEq, Eq)]
pub enum Operation {
    Add(DynQuantity),
    Mul(DynQuantity),
    Div(DynQuantity),
}

impl Operation {
    /// The quantity that waits.
    pub open spec fn quantity(self) -> DynQuantity {
        match self {
            Operation::Add(q) => q,
            Operation::Mul(q) => q,
            Operation::Div(q) => q,
        }
    }

    /// The quantity that waits.
    pub fn into_quantity(self) -> (r: DynQuantity)
        ensures
            r == self.quantity(),
    {
        match self {
            Operation::Add(q) => q,
            Operation::Mul(q) => q,
            Operation::Div(q) => q,
        }
    }
}

/// The state of the evaluator between two tokens.
pub struct State {
    /// The quantity that the last tokens built, if any.
    pub active: Option<DynQuantity>,
    /// The quantities that wait for their right-hand side, oldest first.
    pub stack: Seq<Operation>,
    /// The number of brackets that are open.
    pub depth: nat,
    /// What the last token was.
    pub previous: PreviousToken,
    /// Whether the last operator was `/` and its right-hand side is still to
    /// come.
    pub division_pending: bool,
}

/// A dimensionless quantity of the given value.
pub open spec fn pure(value: Magnitude) -> DynQuantity {
    DynQuantity { value, unit: no_unit() }
}

/// The quantity that a number token leaves: the number itself, or its
/// product with the active quantity.
pub open spec fn with_number(active: Option<DynQuantity>, number: Magnitude) -> DynQuantity {
    match active {
        Some(q) => DynQuantity {
            value: Magnitude::Product(Box::new(q.value), Box::new(number)),
            unit: q.unit,
        },
        None => pure(number),
    }
}

/// The quantity that an infinity token leaves: infinity itself, or the
/// active quantity made infinite.
pub open spec fn with_infinity(active: Option<DynQuantity>, sign: Sign) -> DynQuantity {
    match active {
        Some(q) => DynQuantity { value: Magnitude::Unbounded(Box::new(q.value), sign), unit: q.unit },
        None => pure(Magnitude::Infinite(sign)),
    }
}

/// The quantity that a power of ten leaves: the power itself, or the active
/// quantity scaled by it.
pub open spec fn with_power_of_ten(active: Option<DynQuantity>, n: i32) -> DynQuantity {
    match active {
        Some(q) => DynQuantity {
            value: Magnitude::Scaled(Box::new(q.value), Factor::Ten(n)),
            unit: q.unit,
        },
        None => pure(Magnitude::PowerOfTen(n)),
    }
}

/// The active quantity, or the number one where there is none.
pub open spec fn or_one(active: Option<DynQuantity>) -> DynQuantity {
    match active {
        Some(q) => q,
        None => pure(Magnitude::One),
    }
}

/// The quantity that a percent sign leaves.
pub open spec fn with_percent(active: Option<DynQuantity>) -> DynQuantity {
    let q = or_one(active);
    DynQuantity { value: Magnitude::Scaled(Box::new(q.value), Factor::Percent), unit: q.unit }
}

/// The value that a unit symbol makes of the value it stands behind. `power`
/// is the exponent of the unit and `ten` the power of ten of its prefix.
pub open spec fn convert(value: Magnitude, conversion: Conversion, power: i32, ten: i32) -> Magnitude {
    match conversion {
        Conversion::Plain => Magnitude::Scaled(Box::new(value), Factor::Ten(ten)),
        Conversion::Celsius => Magnitude::Celsius { value: Box::new(value), power, ten },
        Conversion::Pi => Magnitude::Scaled(Box::new(value), Factor::Pi { power, ten }),
        Conversion::PerMinute => Magnitude::Scaled(Box::new(value), Factor::PerMinute { power, ten }),
        Conversion::Degree => Magnitude::Scaled(Box::new(value), Factor::Degree { power, ten }),
    }
}

/// The power of ten that a unit symbol multiplies into the value: that of
/// its prefix, shifted where the unit itself is a power of ten of the base
/// unit, times the exponent of the unit.
pub open spec fn power_of_ten(m: Meaning) -> int {
    m.exponents.unit * (m.exponents.prefix + m.shift)
}

/// The quantity that a unit symbol leaves: the active quantity, or one,
/// multiplied by the unit raised to its exponent, and converted. `None`
/// where an exponent leaves the range of `i32`.
pub open spec fn with_unit(active: Option<DynQuantity>, m: Meaning) -> Option<DynQuantity> {
    let q = or_one(active);
    if !fits_i32(power_of_ten(m)) {
        None
    } else {
        match m.base.spec_checked_powi(m.exponents.unit) {
            None => None,
            Some(contribution) => match q.unit.spec_checked_mul(contribution) {
                None => None,
                Some(unit) => Some(
                    DynQuantity {
                        value: convert(
                            q.value,
                            m.conversion,
                            m.exponents.unit,
                            power_of_ten(m) as i32,
                        ),
                        unit,
                    },
                ),
            },
        }
    }
}

/// The reason for an operation whose unit cannot be stored.
pub open spec fn or_overflow(q: Option<DynQuantity>) -> Result<DynQuantity, ParseErrorReason> {
    match q {
        Some(q) => Ok(q),
        None => Err(ParseErrorReason::CouldNotParse),
    }
}

/// The sum of two quantities, or the reason why they cannot be added.
pub open spec fn checked_sum(acc: DynQuantity, item: DynQuantity) -> Result<
    DynQuantity,
    ParseErrorReason,
> {
    match acc.spec_try_add(item) {
        Ok(sum) => Ok(sum),
        Err(e) => Err(ParseErrorReason::UnitsOfSummandsNotIdentical(e)),
    }
}

/// What a closing bracket with exponent `n` makes of the quantity `q` inside
/// it and of the stack: entries are taken from the top, sums are added to
/// `q`, and the first marker is combined with `q` raised to `n`. Returns the
/// rest of the stack and the new active quantity.
pub open spec fn close_bracket(stack: Seq<Operation>, q: DynQuantity, n: i32) -> Result<
    (Seq<Operation>, DynQuantity),
    ParseErrorReason,
>
    decreases stack.len(),
{
    if stack.len() == 0 {
        Ok((stack, q))
    } else {
        match stack.last() {
            Operation::Add(item) => match checked_sum(q, item) {
                Ok(sum) => close_bracket(stack.drop_last(), sum, n),
                Err(e) => Err(e),
            },
            Operation::Mul(item) => match q.spec_checked_powi(n) {
                None => Err(ParseErrorReason::CouldNotParse),
                Some(p) => match item.spec_checked_mul(p) {
                    None => Err(ParseErrorReason::CouldNotParse),
                    Some(r) => Ok((stack.drop_last(), r)),
                },
            },
            Operation::Div(item) => match q.spec_checked_powi(n) {
                None => Err(ParseErrorReason::CouldNotParse),
                Some(p) => match item.spec_checked_div(p) {
                    None => Err(ParseErrorReason::CouldNotParse),
                    Some(r) => Ok((stack.drop_last(), r)),
                },
            },
        }
    }
}

/// A waiting quantity combined with the quantity to its right.
pub open spec fn combine(op: Operation, acc: DynQuantity) -> Result<DynQuantity, ParseErrorReason> {
    match op {
        Operation::Add(item) => checked_sum(acc, item),
        Operation::Mul(item) => or_overflow(item.spec_checked_mul(acc)),
        Operation::Div(item) => or_overflow(item.spec_checked_div(acc)),
    }
}

/// What is left of the stack at the end of the text, combined with `acc`
/// entry by entry, oldest first.
pub open spec fn fold_stack(stack: Seq<Operation>, acc: DynQuantity) -> Result<
    DynQuantity,
    ParseErrorReason,
>
    decreases stack.len(),
{
    if stack.len() == 0 {
        Ok(acc)
    } else {
        match combine(stack.first(), acc) {
            Ok(next) => fold_stack(stack.drop_first(), next),
            Err(e) => Err(e),
        }
    }
}

impl State {
    /// The state before the first token.
    pub open spec fn initial() -> State {
        State {
            active: None,
            stack: Seq::empty(),
            depth: 0,
            previous: PreviousToken::Other,
            division_pending: false,
        }
    }

    /// What follows every token that is no operator: a division that waited
    /// for this token is carried out, and the token is remembered as
    /// `previous`.
    pub open spec fn settle(self, previous: PreviousToken) -> Result<State, ParseErrorReason> {
        if self.division_pending {
            if self.stack.len() == 0 {
                Err(ParseErrorReason::UnbalancedBrackets)
            } else {
                match (self.stack.last(), self.active) {
                    (Operation::Div(dividend), Some(q)) => match dividend.spec_checked_div(q) {
                        Some(quotient) => Ok(
                            State {
                                active: Some(quotient),
                                stack: self.stack.drop_last(),
                                depth: self.depth,
                                previous,
                                division_pending: false,
                            },
                        ),
                        None => Err(ParseErrorReason::CouldNotParse),
                    },
                    _ => Ok(State { previous, division_pending: false, ..self }),
                }
            }
        } else {
            Ok(State { previous, ..self })
        }
    }

    /// The state with another active quantity.
    pub open spec fn activate(self, q: DynQuantity) -> State {
        State { active: Some(q), ..self }
    }

    /// The state after one more token, or the reason why the token cannot
    /// stand where it does.
    pub open spec fn step(self, token: Token) -> Result<State, ParseErrorReason> {
        match token {
            Token::Real(literal) => if self.previous == PreviousToken::Number {
                Err(ParseErrorReason::TwoNumbersWithoutOperator)
            } else {
                self.activate(with_number(self.active, Magnitude::Real(literal))).settle(
                    PreviousToken::Number,
                )
            },
            Token::Imag(literal) => if self.previous == PreviousToken::Number {
                Err(ParseErrorReason::TwoNumbersWithoutOperator)
            } else {
                self.activate(with_number(self.active, Magnitude::Imag(literal))).settle(
                    PreviousToken::Number,
                )
            },
            Token::PowerOfTen(n) => self.activate(with_power_of_ten(self.active, n)).settle(
                PreviousToken::Other,
            ),
            Token::Infinity => self.activate(with_infinity(self.active, Sign::Positive)).settle(
                PreviousToken::Other,
            ),
            Token::NegInfinity => self.activate(with_infinity(self.active, Sign::Negative)).settle(
                PreviousToken::Other,
            ),
            Token::Percent => self.activate(with_percent(self.active)).settle(PreviousToken::Other),
            Token::Mul => if !self.previous.spec_is_operand() {
                Err(ParseErrorReason::TwoOperatorsWithoutNumber)
            } else if self.active is None {
                Err(ParseErrorReason::MustNotStartWith)
            } else {
                Ok(State { previous: PreviousToken::Mul, ..self })
            },
            Token::Div => if !self.previous.spec_is_operand() {
                Err(ParseErrorReason::TwoOperatorsWithoutNumber)
            } else {
                match self.active {
                    None => Err(ParseErrorReason::MustNotStartWith),
                    Some(q) => Ok(
                        State {
                            active: None,
                            stack: self.stack.push(Operation::Div(q)),
                            depth: self.depth,
                            previous: PreviousToken::Div,
                            division_pending: true,
                        },
                    ),
                }
            },
            Token::Add => self.sign(Magnitude::One, PreviousToken::Add),
            Token::Sub => self.sign(Magnitude::MinusOne, PreviousToken::Sub),
            Token::LeftBracket => State {
                active: None,
                stack: match self.active {
                    Some(q) => self.stack.push(Operation::Mul(q)),
                    None => if self.previous.spec_is_operand() {
                        self.stack.push(Operation::Mul(pure(Magnitude::One)))
                    } else {
                        self.stack
                    },
                },
                depth: self.depth + 1,
                previous: self.previous,
                division_pending: self.division_pending,
            }.settle(PreviousToken::Other),
            Token::RightBracket(n) => if self.depth == 0 {
                Err(ParseErrorReason::UnbalancedBrackets)
            } else {
                match self.active {
                    None => Err(ParseErrorReason::UnbalancedBrackets),
                    Some(q) => match close_bracket(self.stack, q, n) {
                        Err(e) => Err(e),
                        Ok((rest, result)) => State {
                            active: Some(result),
                            stack: rest,
                            depth: (self.depth - 1) as nat,
                            previous: self.previous,
                            division_pending: self.division_pending,
                        }.settle(PreviousToken::Other),
                    },
                }
            },
            _ => match token.spec_meaning() {
                None => Err(ParseErrorReason::CouldNotParse),
                Some(meaning) => match with_unit(self.active, meaning) {
                    None => Err(ParseErrorReason::CouldNotParse),
                    Some(q) => self.activate(q).settle(PreviousToken::Other),
                },
            },
        }
    }

    /// The state after `+` or `-`: the active quantity waits on the stack
    /// for its summand, and the sign becomes the active quantity.
    pub open spec fn sign(self, unit_value: Magnitude, operator: PreviousToken) -> Result<
        State,
        ParseErrorReason,
    > {
        if self.previous.spec_is_sign() {
            Err(ParseErrorReason::TwoOperatorsWithoutNumber)
        } else {
            Ok(
                State {
                    active: Some(pure(unit_value)),
                    stack: match self.active {
                        Some(q) => self.stack.push(Operation::Add(q)),
                        None => self.stack,
                    },
                    depth: self.depth,
                    previous: operator,
                    division_pending: self.division_pending,
                },
            )
        }
    }

    /// The quantity that the text denotes, once its last token is taken.
    pub open spec fn finish(self) -> Result<DynQuantity, ParseErrorReason> {
        if self.depth != 0 {
            Err(ParseErrorReason::UnbalancedBrackets)
        } else if self.stack.len() == 0 {
            match self.active {
                Some(q) => Ok(q),
                None => Err(ParseErrorReason::InputIsEmpty),
            }
        } else {
            match self.active {
                Some(q) => fold_stack(self.stack, q),
                None => fold_stack(self.stack.drop_last(), self.stack.last().quantity()),
            }
        }
    }
}

/// The evaluator: it is fed the tokens of a text in order and asked for the
/// quantity at the end.
#[derive(Debug)]
pub struct Evaluator {
    active: Option<DynQuantity>,
    stack: Vec<Operation>,
    bracket_level: usize,
    previous: PreviousToken,
    division_pending: bool,
}

impl View for Evaluator {
    type V = State;

    closed spec fn view(&self) -> State {
        State {
            active: self.active,
            stack: self.stack@,
            depth: self.bracket_level as nat,
            previous: self.previous,
            division_pending: self.division_pending,
        }
    }
}

/// A dimensionless quantity of the given value.
fn pure_quantity(value: Magnitude) -> (r: DynQuantity)
    ensures
        r == pure(value),
{
    DynQuantity { value, unit: Unit::default() }
}

/// The active quantity, or the number one where there is none.
fn active_or_one(active: Option<DynQuantity>) -> (r: DynQuantity)
    ensures
        r == or_one(active),
{
    match active {
        Some(q) => q,
        None => pure_quantity(Magnitude::One),
    }
}

/// Applies a unit symbol to the active quantity.
fn apply_unit(active: Option<DynQuantity>, m: Meaning) -> (r: Option<DynQuantity>)
    ensures
        r == with_unit(active, m),
{
    let q = active_or_one(active);
    let shifted: i128 = m.exponents.prefix as i128 + m.shift as i128;
    assert(-0x1_0000_0000_0000_0000 <= m.exponents.unit * shifted <= 0x1_0000_0000_0000_0000)
        by (nonlinear_arith)
        requires
            -0x8000_0000 <= m.exponents.unit <= 0x8000_0000,
            -0x1_0000_0000 <= shifted <= 0x1_0000_0000,
    ;
    let wide: i128 = (m.exponents.unit as i128) * shifted;
    if wide < i32::MIN as i128 || wide > i32::MAX as i128 {
        return None;
    }
    let ten: i32 = wide as i32;
    let power: i32 = m.exponents.unit;
    match m.base.checked_powi(power) {
        None => None,
        Some(contribution) => match q.unit.checked_mul(contribution) {
            None => None,
            Some(unit) => {
                let inner = Box::new(q.value);
                let value = match m.conversion {
                    Conversion::Plain => Magnitude::Scaled(inner, Factor::Ten(ten)),
                    Conversion::Celsius => Magnitude::Celsius { value: inner, power, ten },
                    Conversion::Pi => Magnitude::Scaled(inner, Factor::Pi { power, ten }),
                    Conversion::PerMinute => Magnitude::Scaled(
                        inner,
                        Factor::PerMinute { power, ten },
                    ),
                    Conversion::Degree => Magnitude::Scaled(inner, Factor::Degree { power, ten }),
                };
                Some(DynQuantity { value, unit })
            },
        },
    }
}

/// Adds a waiting summand to `acc`.
fn add_checked(acc: DynQuantity, item: DynQuantity) -> (r: Result<DynQuantity, ParseErrorReason>)
    ensures
        r == checked_sum(acc, item),
{
    if acc.unit == item.unit {
        Ok(
            DynQuantity {
                value: Magnitude::Sum(Box::new(acc.value), Box::new(item.value)),
                unit: acc.unit,
            },
        )
    } else {
        Err(ParseErrorReason::UnitsOfSummandsNotIdentical(UnitsNotEqual(acc.unit, item.unit)))
    }
}

/// Combines a waiting quantity with the quantity to its right.
fn combine_checked(op: Operation, acc: DynQuantity) -> (r: Result<DynQuantity, ParseErrorReason>)
    ensures
        r == combine(op, acc),
{
    match op {
        Operation::Add(item) => add_checked(acc, item),
        Operation::Mul(item) => match item.checked_mul(acc) {
            Some(q) => Ok(q),
            None => Err(ParseErrorReason::CouldNotParse),
        },
        Operation::Div(item) => match item.checked_div(acc) {
            Some(q) => Ok(q),
            None => Err(ParseErrorReason::CouldNotParse),
        },
    }
}

/// The entries of a stack in reverse order.
fn reversed(stack: Vec<Operation>) -> (r: Vec<Operation>)
    ensures
        r@ == stack@.reverse(),
        r@.reverse() == stack@,
{
    let mut source = stack;
    let mut target: Vec<Operation> = Vec::new();
    let ghost all = source@;
    while source.len() > 0
        invariant
            source@.len() + target@.len() == all.len(),
            source@ == all.subrange(0, source@.len() as int),
            forall|i: int|
                0 <= i < target@.len() ==> #[trigger] target@[i] == all[all.len() - 1 - i],
        decreases source.len(),
    {
        let item = source.pop().unwrap();
        target.push(item);
    }
    assert(target@ =~= all.reverse());
    assert(target@.reverse() =~= all);
    target
}

impl Evaluator {
    /// An evaluator that has taken no token yet.
    pub fn new() -> (r: Evaluator)
        ensures
            r@ == State::initial(),
    {
        let r = Evaluator {
            active: None,
            stack: Vec::new(),
            bracket_level: 0,
            previous: PreviousToken::Other,
            division_pending: false,
        };
        assert(r@.stack =~= State::initial().stack);
        r
    }

    /// The number of brackets that are open.
    pub fn bracket_level(&self) -> (r: usize)
        ensures
            r == self@.depth,
    {
        self.bracket_level
    }

    /// Carries out a division that waited for the last token and remembers
    /// what that token was.
    fn settle(self, previous: PreviousToken) -> (r: Result<Evaluator, ParseErrorReason>)
        ensures
            match self@.settle(previous) {
                Ok(state) => r matches Ok(next) && next@ == state,
                Err(e) => r matches Err(reason) && reason == e,
            },
    {
        let Evaluator { active, stack, bracket_level, previous: _, division_pending } = self;
        let mut stack = stack;
        let mut active = active;
        let ghost before = stack@;
        if division_pending {
            match stack.pop() {
                None => {
                    return Err(ParseErrorReason::UnbalancedBrackets);
                },
                Some(Operation::Div(dividend)) => {
                    match active {
                        Some(q) => match dividend.checked_div(q) {
                            Some(quotient) => {
                                active = Some(quotient);
                            },
                            None => {
                                return Err(ParseErrorReason::CouldNotParse);
                            },
                        },
                        None => {
                            stack.push(Operation::Div(dividend));
                            assert(stack@ =~= before);
                            active = None;
                        },
                    }
                },
                Some(other) => {
                    stack.push(other);
                    assert(stack@ =~= before);
                },
            }
        }
        Ok(Evaluator { active, stack, bracket_level, previous, division_pending: false })
    }

    /// Takes `+` or `-`.
    fn sign(self, unit_value: Magnitude, operator: PreviousToken) -> (r: Result<
        Evaluator,
        ParseErrorReason,
    >)
        ensures
            match self@.sign(unit_value, operator) {
                Ok(state) => r matches Ok(next) && next@ == state,
                Err(e) => r matches Err(reason) && reason == e,
            },
    {
        if self.previous.is_sign() {
            return Err(ParseErrorReason::TwoOperatorsWithoutNumber);
        }
        let Evaluator { active, stack, bracket_level, previous: _, division_pending } = self;
        let mut stack = stack;
        match active {
            Some(q) => {
                stack.push(Operation::Add(q));
            },
            None => {},
        }
        Ok(
            Evaluator {
                active: Some(pure_quantity(unit_value)),
                stack,
                bracket_level,
                previous: operator,
                division_pending,
            },
        )
    }

    /// Takes a closing bracket with the exponent `n`.
    fn close(self, n: i32) -> (r: Result<Evaluator, ParseErrorReason>)
        ensures
            match self@.step(Token::RightBracket(n)) {
                Ok(state) => r matches Ok(next) && next@ == state,
                Err(e) => r matches Err(reason) && reason == e,
            },
    {
        let ghost state = self@;
        let Evaluator { active, stack, bracket_level, previous, division_pending } = self;
        if bracket_level == 0 {
            return Err(ParseErrorReason::UnbalancedBrackets);
        }
        let mut stack = stack;
        let mut quantity = match active {
            None => {
                return Err(ParseErrorReason::UnbalancedBrackets);
            },
            Some(q) => q,
        };
        let ghost goal = close_bracket(stack@, quantity, n);
        let mut done = false;
        while !done && stack.len() > 0
            invariant
                state == self@,
                state.depth != 0,
                state.active is Some,
                goal == close_bracket(state.stack, state.active->0, n),
                !done ==> close_bracket(stack@, quantity, n) == goal,
                done ==> goal == Ok::<(Seq<Operation>, DynQuantity), ParseErrorReason>(
                    (stack@, quantity),
                ),
            decreases stack.len() + (if done { 0int } else { 1int }),
        {
            let item = stack.pop().unwrap();
            match item {
                Operation::Add(summand) => {
                    match add_checked(quantity, summand) {
                        Ok(sum) => {
                            quantity = sum;
                        },
                        Err(e) => {
                            return Err(e);
                        },
                    }
                },
                Operation::Mul(factor) => {
                    match quantity.checked_powi(n) {
                        None => {
                            return Err(ParseErrorReason::CouldNotParse);
                        },
                        Some(p) => match factor.checked_mul(p) {
                            None => {
                                return Err(ParseErrorReason::CouldNotParse);
                            },
                            Some(result) => {
                                quantity = result;
                                done = true;
                            },
                        },
                    }
                },
                Operation::Div(dividend) => {
                    match quantity.checked_powi(n) {
                        None => {
                            return Err(ParseErrorReason::CouldNotParse);
                        },
                        Some(p) => match dividend.checked_div(p) {
                            None => {
                                return Err(ParseErrorReason::CouldNotParse);
                            },
                            Some(result) => {
                                quantity = result;
                                done = true;
                            },
                        },
                    }
                },
            }
        }
        Evaluator {
            active: Some(quantity),
            stack,
            bracket_level: bracket_level - 1,
            previous,
            division_pending,
        }.settle(PreviousToken::Other)
    }

    /// Takes the next token of the text. The result is the evaluator after
    /// the token, or the reason why the token cannot stand where it does.
    pub fn step(self, token: Token) -> (r: Result<Evaluator, ParseErrorReason>)
        requires
            self@.depth < usize::MAX,
        ensures
            match self@.step(token) {
                Ok(state) => r matches Ok(next) && next@ == state,
                Err(e) => r matches Err(reason) && reason == e,
            },
    {
        match token {
            Token::Real(literal) => {
                if self.previous == PreviousToken::Number {
                    return Err(ParseErrorReason::TwoNumbersWithoutOperator);
                }
                self.number(Magnitude::Real(literal))
            },
            Token::Imag(literal) => {
                if self.previous == PreviousToken::Number {
                    return Err(ParseErrorReason::TwoNumbersWithoutOperator);
                }
                self.number(Magnitude::Imag(literal))
            },
            Token::PowerOfTen(n) => {
                let Evaluator { active, stack, bracket_level, previous, division_pending } = self;
                let q = match active {
                    Some(q) => DynQuantity {
                        value: Magnitude::Scaled(Box::new(q.value), Factor::Ten(n)),
                        unit: q.unit,
                    },
                    None => pure_quantity(Magnitude::PowerOfTen(n)),
                };
                Evaluator {
                    active: Some(q),
                    stack,
                    bracket_level,
                    previous,
                    division_pending,
                }.settle(PreviousToken::Other)
            },
            Token::Infinity => self.infinity(Sign::Positive),
            Token::NegInfinity => self.infinity(Sign::Negative),
            Token::Percent => {
                let Evaluator { active, stack, bracket_level, previous, division_pending } = self;
                let q = active_or_one(active);
                let q = DynQuantity {
                    value: Magnitude::Scaled(Box::new(q.value), Factor::Percent),
                    unit: q.unit,
                };
                Evaluator {
                    active: Some(q),
                    stack,
                    bracket_level,
                    previous,
                    division_pending,
                }.settle(PreviousToken::Other)
            },
            Token::Mul => {
                if !self.previous.is_operand() {
                    return Err(ParseErrorReason::TwoOperatorsWithoutNumber);
                }
                if self.active.is_none() {
                    return Err(ParseErrorReason::MustNotStartWith);
                }
                let Evaluator { active, stack, bracket_level, previous: _, division_pending } = self;
                Ok(
                    Evaluator {
                        active,
                        stack,
                        bracket_level,
                        previous: PreviousToken::Mul,
                        division_pending,
                    },
                )
            },
            Token::Div => {
                if !self.previous.is_operand() {
                    return Err(ParseErrorReason::TwoOperatorsWithoutNumber);
                }
                let Evaluator { active, stack, bracket_level, previous: _, division_pending: _ } =
                    self;
                let mut stack = stack;
                match active {
                    None => Err(ParseErrorReason::MustNotStartWith),
                    Some(q) => {
                        stack.push(Operation::Div(q));
                        Ok(
                            Evaluator {
                                active: None,
                                stack,
                                bracket_level,
                                previous: PreviousToken::Div,
                                division_pending: true,
                            },
                        )
                    },
                }
            },
            Token::Add => self.sign(Magnitude::One, PreviousToken::Add),
            Token::Sub => self.sign(Magnitude::MinusOne, PreviousToken::Sub),
            Token::LeftBracket => {
                let Evaluator { active, stack, bracket_level, previous, division_pending } = self;
                let mut stack = stack;
                match active {
                    Some(q) => {
                        stack.push(Operation::Mul(q));
                    },
                    None => {
                        if previous.is_operand() {
                            stack.push(Operation::Mul(pure_quantity(Magnitude::One)));
                        }
                    },
                }
                Evaluator {
                    active: None,
                    stack,
                    bracket_level: bracket_level + 1,
                    previous,
                    division_pending,
                }.settle(PreviousToken::Other)
            },
            Token::RightBracket(n) => self.close(n),
            _ => {
                match token.meaning() {
                    None => Err(ParseErrorReason::CouldNotParse),
                    Some(meaning) => {
                        let Evaluator { active, stack, bracket_level, previous, division_pending } =
                            self;
                        match apply_unit(active, meaning) {
                            None => Err(ParseErrorReason::CouldNotParse),
                            Some(q) => Evaluator {
                                active: Some(q),
                                stack,
                                bracket_level,
                                previous,
                                division_pending,
                            }.settle(PreviousToken::Other),
                        }
                    },
                }
            },
        }
    }

    /// Takes a number.
    fn number(self, number: Magnitude) -> (r: Result<Evaluator, ParseErrorReason>)
        ensures
            match self@.activate(with_number(self@.active, number)).settle(PreviousToken::Number) {
                Ok(state) => r matches Ok(next) && next@ == state,
                Err(e) => r matches Err(reason) && reason == e,
            },
    {
        let Evaluator { active, stack, bracket_level, previous, division_pending } = self;
        let q = match active {
            Some(q) => DynQuantity {
                value: Magnitude::Product(Box::new(q.value), Box::new(number)),
                unit: q.unit,
            },
            None => pure_quantity(number),
        };
        Evaluator { active: Some(q), stack, bracket_level, previous, division_pending }.settle(
            PreviousToken::Number,
        )
    }

    /// Takes an infinity.
    fn infinity(self, sign: Sign) -> (r: Result<Evaluator, ParseErrorReason>)
        ensures
            match self@.activate(with_infinity(self@.active, sign)).settle(PreviousToken::Other) {
                Ok(state) => r matches Ok(next) && next@ == state,
                Err(e) => r matches Err(reason) && reason == e,
            },
    {
        let Evaluator { active, stack, bracket_level, previous, division_pending } = self;
        let q = match active {
            Some(q) => DynQuantity {
                value: Magnitude::Unbounded(Box::new(q.value), sign),
                unit: q.unit,
            },
            None => pure_quantity(Magnitude::Infinite(sign)),
        };
        Evaluator { active: Some(q), stack, bracket_level, previous, division_pending }.settle(
            PreviousToken::Other,
        )
    }

    /// Ends the text: the quantity it denotes, or the reason why it denotes
    /// none.
    pub fn finish(self) -> (r: Result<DynQuantity, ParseErrorReason>)
        ensures
            r == self@.finish(),
    {
        let ghost state = self@;
        let Evaluator { active, stack, bracket_level, previous: _, division_pending: _ } = self;
        if bracket_level != 0 {
            return Err(ParseErrorReason::UnbalancedBrackets);
        }
        let mut stack = stack;
        let start = match active {
            Some(q) => q,
            None => match stack.pop() {
                Some(top) => top.into_quantity(),
                None => {
                    return Err(ParseErrorReason::InputIsEmpty);
                },
            },
        };
        let ghost goal = fold_stack(stack@, start);
        let mut rest = reversed(stack);
        let mut acc = start;
        assert(goal == state.finish());
        while rest.len() > 0
            invariant
                state == self@,
                goal == state.finish(),
                fold_stack(rest@.reverse(), acc) == goal,
            decreases rest.len(),
        {
            let ghost before = rest@;
            let op = rest.pop().unwrap();
            proof {
                assert(before.reverse().first() == op);
                assert(before.reverse().drop_first() =~= rest@.reverse());
            }
            match combine_checked(op, acc) {
                Ok(next) => {
                    acc = next;
                },
                Err(e) => {
                    return Err(e);
                },
            }
        }
        Ok(acc)
    }
}

/// A token opens at most one bracket.
pub proof fn lemma_step_depth(state: State, token: Token)
    ensures
        match state.step(token) {
            Ok(next) => next.depth <= state.depth + 1,
            Err(_) => true,
        },
{
}

} // verus!
