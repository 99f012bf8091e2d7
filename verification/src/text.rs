//! Texts: how units, quantities and errors are written for a reader.

use vstd::prelude::*;
use vstd::string::StringExecFns;

use crate::error::{
    ConversionError, LexingError, NotConvertibleFromComplexF64, ParseError, ParseErrorReason,
    RootError, UnitsNotEqual,
};
use crate::quantity::DynQuantity;
use crate::unit::Unit;

verus! {

/// The character of a decimal digit.
pub open spec fn digit(d: int) -> char {
    if d == 0 {
        '0'
    } else if d == 1 {
        '1'
    } else if d == 2 {
        '2'
    } else if d == 3 {
        '3'
    } else if d == 4 {
        '4'
    } else if d == 5 {
        '5'
    } else if d == 6 {
        '6'
    } else if d == 7 {
        '7'
    } else if d == 8 {
        '8'
    } else {
        '9'
    }
}

/// A natural number in decimal digits, without leading zeros.
pub open spec fn natural_text(n: nat) -> Seq<char>
    decreases n,
{
    if n < 10 {
        seq![digit(n as int)]
    } else {
        natural_text(n / 10) + seq![digit((n % 10) as int)]
    }
}

/// An integer in decimal digits, with `-` before a negative one.
pub open spec fn integer_text(n: int) -> Seq<char> {
    if n < 0 {
        seq!['-'] + natural_text((-n) as nat)
    } else {
        natural_text(n as nat)
    }
}

/// The text of one digit.
fn digit_str(d: u32) -> (r: &'static str)
    requires
        d < 10,
    ensures
        r@ == seq![digit(d as int)],
{
    proof {
        reveal_strlit("0");
        reveal_strlit("1");
        reveal_strlit("2");
        reveal_strlit("3");
        reveal_strlit("4");
        reveal_strlit("5");
        reveal_strlit("6");
        reveal_strlit("7");
        reveal_strlit("8");
        reveal_strlit("9");
    }
    let r = if d == 0 {
        "0"
    } else if d == 1 {
        "1"
    } else if d == 2 {
        "2"
    } else if d == 3 {
        "3"
    } else if d == 4 {
        "4"
    } else if d == 5 {
        "5"
    } else if d == 6 {
        "6"
    } else if d == 7 {
        "7"
    } else if d == 8 {
        "8"
    } else {
        "9"
    };
    assert(r@ =~= seq![digit(d as int)]);
    r
}

/// Appends a natural number in decimal digits.
fn push_natural(out: &mut String, n: u32)
    ensures
        final(out)@ == old(out)@ + natural_text(n as nat),
    decreases n,
{
    if n >= 10 {
        push_natural(out, n / 10);
    }
    out.append(digit_str(n % 10));
    assert(final(out)@ =~= old(out)@ + natural_text(n as nat));
}

/// Appends an integer in decimal digits.
pub fn push_integer(out: &mut String, n: i32)
    ensures
        final(out)@ == old(out)@ + integer_text(n as int),
{
    if n < 0 {
        proof {
            reveal_strlit("-");
        }
        out.append("-");
        let magnitude: u32 = (-(n as i64)) as u32;
        push_natural(out, magnitude);
        assert(final(out)@ =~= old(out)@ + integer_text(n as int));
    } else {
        push_natural(out, n as u32);
    }
}

/// The part that one base unit adds to the text of a quantity: nothing for
/// the exponent zero, the symbol alone for the exponent one, and the symbol
/// with its exponent otherwise, each behind a space.
pub open spec fn factor_text(symbol: Seq<char>, exponent: int) -> Seq<char> {
    if exponent == 0 {
        Seq::empty()
    } else if exponent == 1 {
        " "@ + symbol
    } else {
        " "@ + symbol + "^"@ + integer_text(exponent)
    }
}

/// Appends the part that one base unit adds to the text of a quantity.
fn push_factor(out: &mut String, symbol: &str, exponent: i32)
    ensures
        final(out)@ == old(out)@ + factor_text(symbol@, exponent as int),
{
    if exponent != 0 {
        out.append(" ");
        out.append(symbol);
        if exponent != 1 {
            out.append("^");
            push_integer(out, exponent);
        }
    }
    assert(final(out)@ =~= old(out)@ + factor_text(symbol@, exponent as int));
}

impl Unit {
    /// The unit as a product of powers of the base units, behind a value:
    /// the base units in the order second, meter, kilogram, ampere, kelvin,
    /// mol, candela, without those of exponent zero.
    pub open spec fn spec_suffix(self) -> Seq<char> {
        factor_text("s"@, self.second as int) + factor_text("m"@, self.meter as int) + factor_text(
            "kg"@,
            self.kilogram as int,
        ) + factor_text("A"@, self.ampere as int) + factor_text("K"@, self.kelvin as int)
            + factor_text("mol"@, self.mol as int) + factor_text("cd"@, self.candela as int)
    }

    /// The unit as it is written behind a value.
    pub fn suffix(&self) -> (r: String)
        ensures
            r@ == self.spec_suffix(),
    {
        let mut out = String::new();
        push_factor(&mut out, "s", self.second);
        push_factor(&mut out, "m", self.meter);
        push_factor(&mut out, "kg", self.kilogram);
        push_factor(&mut out, "A", self.ampere);
        push_factor(&mut out, "K", self.kelvin);
        push_factor(&mut out, "mol", self.mol);
        push_factor(&mut out, "cd", self.candela);
        assert(out@ =~= self.spec_suffix());
        out
    }

    /// The unit with all seven exponents:
    /// `s^a m^b kg^c A^d K^e mol^f cd^g`.
    pub open spec fn spec_text(self) -> Seq<char> {
        "s^"@ + integer_text(self.second as int) + " m^"@ + integer_text(self.meter as int)
            + " kg^"@ + integer_text(self.kilogram as int) + " A^"@ + integer_text(
            self.ampere as int,
        ) + " K^"@ + integer_text(self.kelvin as int) + " mol^"@ + integer_text(self.mol as int)
            + " cd^"@ + integer_text(self.candela as int)
    }

    /// Appends the unit with all seven exponents.
    fn push_text(&self, out: &mut String)
        ensures
            final(out)@ == old(out)@ + self.spec_text(),
    {
        out.append("s^");
        push_integer(out, self.second);
        out.append(" m^");
        push_integer(out, self.meter);
        out.append(" kg^");
        push_integer(out, self.kilogram);
        out.append(" A^");
        push_integer(out, self.ampere);
        out.append(" K^");
        push_integer(out, self.kelvin);
        out.append(" mol^");
        push_integer(out, self.mol);
        out.append(" cd^");
        push_integer(out, self.candela);
        assert(final(out)@ =~= old(out)@ + self.spec_text());
    }

    /// The unit with all seven exponents.
    pub fn to_text(&self) -> (r: String)
        ensures
            r@ == self.spec_text(),
    {
        let mut out = String::new();
        self.push_text(&mut out);
        assert(out@ =~= self.spec_text());
        out
    }
}

/// A quantity as text: the value, in brackets where it has an imaginary
/// part, and the unit behind it.
pub open spec fn quantity_text(value: Seq<char>, imaginary: bool, unit: Unit) -> Seq<char> {
    if imaginary {
        "("@ + value + ")"@ + unit.spec_suffix()
    } else {
        value + unit.spec_suffix()
    }
}

impl DynQuantity {
    /// The quantity as text. The value is handed in as it is to be written,
    /// together with whether it has an imaginary part.
    pub fn to_text(&self, value: &str, imaginary: bool) -> (r: String)
        ensures
            r@ == quantity_text(value@, imaginary, self.unit),
    {
        let mut out = String::new();
        if imaginary {
            out.append("(");
            out.append(value);
            out.append(")");
        } else {
            out.append(value);
        }
        let suffix = self.unit.suffix();
        out.append(suffix.as_str());
        assert(out@ =~= quantity_text(value@, imaginary, self.unit));
        out
    }
}

impl UnitsNotEqual {
    /// The message of the error.
    pub open spec fn spec_text(self) -> Seq<char> {
        "unit "@ + self.0.spec_text() + " not equal to unit "@ + self.1.spec_text()
    }

    /// The message of the error.
    pub fn to_text(&self) -> (r: String)
        ensures
            r@ == self.spec_text(),
    {
        let mut out = String::new();
        out.append("unit ");
        self.0.push_text(&mut out);
        out.append(" not equal to unit ");
        self.1.push_text(&mut out);
        assert(out@ =~= self.spec_text());
        out
    }
}

impl RootError {
    /// The message of the error.
    pub open spec fn spec_text(self) -> Seq<char> {
        "not possible to calculate the "@ + integer_text(self.n as int) + "th root (exponents "@
            + self.unit.spec_text() + " cannot be divided by "@ + integer_text(self.n as int)
            + " without remainder)"@
    }

    /// The message of the error.
    pub fn to_text(&self) -> (r: String)
        ensures
            r@ == self.spec_text(),
    {
        let mut out = String::new();
        out.append("not possible to calculate the ");
        push_integer(&mut out, self.n);
        out.append("th root (exponents ");
        self.unit.push_text(&mut out);
        out.append(" cannot be divided by ");
        push_integer(&mut out, self.n);
        out.append(" without remainder)");
        assert(out@ =~= self.spec_text());
        out
    }
}

impl LexingError {
    /// The message of the error.
    pub open spec fn spec_text(self) -> Seq<char> {
        match self {
            LexingError::InvalidFloat(text) => "could not interpret "@ + text@
                + " as a floating-point number"@,
            LexingError::InvalidInt(text) => "could not interpret "@ + text@
                + " as a signed integer"@,
            LexingError::CouldNotParse => "could not parse the input"@,
        }
    }

    /// The message of the error.
    pub fn to_text(&self) -> (r: String)
        ensures
            r@ == self.spec_text(),
    {
        let mut out = String::new();
        match self {
            LexingError::InvalidFloat(text) => {
                out.append("could not interpret ");
                out.append(text.as_str());
                out.append(" as a floating-point number");
            },
            LexingError::InvalidInt(text) => {
                out.append("could not interpret ");
                out.append(text.as_str());
                out.append(" as a signed integer");
            },
            LexingError::CouldNotParse => {
                out.append("could not parse the input");
            },
        }
        assert(out@ =~= self.spec_text());
        out
    }
}

impl NotConvertibleFromComplexF64 {
    /// The message of the error, with the value as it is to be written.
    pub open spec fn spec_text(self, value: Seq<char>) -> Seq<char> {
        "could not convert from "@ + value + " into target type "@ + self.target_type@
    }

    /// The message of the error. The value that could not be converted is
    /// handed in as it is to be written.
    pub fn to_text(&self, value: &str) -> (r: String)
        ensures
            r@ == self.spec_text(value@),
    {
        let mut out = String::new();
        out.append("could not convert from ");
        out.append(value);
        out.append(" into target type ");
        out.append(self.target_type);
        assert(out@ =~= self.spec_text(value@));
        out
    }
}

impl ParseErrorReason {
    /// The message of the reason. `value` is the text of the value that
    /// could not be converted, where that is the reason.
    pub open spec fn spec_text(self, value: Seq<char>) -> Seq<char> {
        match self {
            ParseErrorReason::UnexpectedToken => "unexpected token"@,
            ParseErrorReason::InputIsEmpty => "input is empty"@,
            ParseErrorReason::UnbalancedBrackets => "unbalanced number of brackets"@,
            ParseErrorReason::TwoNumbersWithoutOperator => "encountered two numbers without an operator (+ or -) between them"@,
            ParseErrorReason::TwoOperatorsWithoutNumber => "encountered two operators (+, -, * or /) without a number between them"@,
            ParseErrorReason::MustNotStartWith => "input must not start with this token"@,
            ParseErrorReason::UnitsOfSummandsNotIdentical(units) => units.spec_text(),
            ParseErrorReason::NotConvertibleFromComplexF64(e) => e.spec_text(value),
            ParseErrorReason::CouldNotParse => "could not parse the input"@,
        }
    }

    /// The message of the reason. `value` is the text of the value that
    /// could not be converted, where that is the reason; otherwise it is
    /// not looked at.
    pub fn to_text(&self, value: &str) -> (r: String)
        ensures
            r@ == self.spec_text(value@),
    {
        match self {
            ParseErrorReason::UnexpectedToken => String::from_str("unexpected token"),
            ParseErrorReason::InputIsEmpty => String::from_str("input is empty"),
            ParseErrorReason::UnbalancedBrackets => String::from_str(
                "unbalanced number of brackets",
            ),
            ParseErrorReason::TwoNumbersWithoutOperator => String::from_str(
                "encountered two numbers without an operator (+ or -) between them",
            ),
            ParseErrorReason::TwoOperatorsWithoutNumber => String::from_str(
                "encountered two operators (+, -, * or /) without a number between them",
            ),
            ParseErrorReason::MustNotStartWith => String::from_str(
                "input must not start with this token",
            ),
            ParseErrorReason::UnitsOfSummandsNotIdentical(units) => units.to_text(),
            ParseErrorReason::NotConvertibleFromComplexF64(e) => e.to_text(value),
            ParseErrorReason::CouldNotParse => String::from_str("could not parse the input"),
        }
    }
}

impl ParseError {
    /// The message of the error: the piece of the text that could not be
    /// parsed, and the reason.
    pub open spec fn spec_text(self, value: Seq<char>) -> Seq<char> {
        "could not parse "@ + self.substring@ + ": "@ + self.reason.spec_text(value)
    }

    /// The message of the error. `value` is the text of the value that
    /// could not be converted, where that is the reason.
    pub fn to_text(&self, value: &str) -> (r: String)
        ensures
            r@ == self.spec_text(value@),
    {
        let mut out = String::new();
        out.append("could not parse ");
        out.append(self.substring.as_str());
        out.append(": ");
        let reason = self.reason.to_text(value);
        out.append(reason.as_str());
        assert(out@ =~= self.spec_text(value@));
        out
    }
}

impl ConversionError {
    /// The message of the error. `value` is the text of the value that
    /// could not be converted, where that is the reason.
    pub open spec fn spec_text(self, value: Seq<char>) -> Seq<char> {
        match self {
            ConversionError::NotConvertibleFromComplexF64(e) => e.spec_text(value),
            ConversionError::UnitMismatch { expected, found } => "expected "@
                + expected.spec_text() + ", found "@ + found.spec_text(),
            ConversionError::Custom(text) => text@,
        }
    }

    /// The message of the error. `value` is the text of the value that
    /// could not be converted, where that is the reason.
    pub fn to_text(&self, value: &str) -> (r: String)
        ensures
            r@ == self.spec_text(value@),
    {
        match self {
            ConversionError::NotConvertibleFromComplexF64(e) => e.to_text(value),
            ConversionError::UnitMismatch { expected, found } => {
                let mut out = String::new();
                out.append("expected ");
                expected.push_text(&mut out);
                out.append(", found ");
                found.push_text(&mut out);
                assert(out@ =~= self.spec_text(value@));
                out
            },
            ConversionError::Custom(text) => text.clone(),
        }
    }
}

} // verus!
