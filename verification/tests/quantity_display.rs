use dyn_quantity::{
    parse, Factor, Literal, Magnitude, NotConvertibleFromComplexF64, ParseError,
    ParseErrorReason, Sign, Span, Unit,
};
use num::Complex;

/// A quantity whose value has been computed.
#[derive(Debug, Clone, Copy, PartialEq)]
struct Evaluated<V> {
    value: V,
    exponents: Unit,
}

fn literal(input: &str, lit: &Literal) -> f64 {
    if lit.start == lit.end {
        1.0
    } else {
        input[lit.start..lit.end].parse().unwrap()
    }
}

fn multiply_no_nan(a: Complex<f64>, b: Complex<f64>) -> Complex<f64> {
    let mut re = 0.0;
    let mut im = 0.0;
    if !(a.re.is_infinite() && b.re == 0.0) && !(a.re == 0.0 && b.re.is_infinite()) {
        re += a.re * b.re;
    }
    if !(a.im.is_infinite() && b.re == 0.0) && !(a.im == 0.0 && b.re.is_infinite()) {
        im += a.im * b.re;
    }
    if !(a.re.is_infinite() && b.im == 0.0) && !(a.re == 0.0 && b.im.is_infinite()) {
        im += a.re * b.im;
    }
    if !(a.im.is_infinite() && b.im == 0.0) && !(a.im == 0.0 && b.im.is_infinite()) {
        re -= a.im * b.im;
    }
    Complex::new(re, im)
}

fn factor(f: &Factor) -> f64 {
    match *f {
        Factor::Percent => 1e-2,
        Factor::Ten(ten) => 10.0_f64.powi(ten),
        Factor::Pi { power, ten } => std::f64::consts::PI.powi(power) * 10.0_f64.powi(ten),
        Factor::PerMinute { power, ten } => (1.0f64 / 60.0f64).powi(power) * 10.0_f64.powi(ten),
        Factor::Degree { power, ten } => {
            (std::f64::consts::PI / 180.0).powi(power) * 10.0_f64.powi(ten)
        }
    }
}

fn signed_infinity(sign: &Sign) -> f64 {
    match sign {
        Sign::Positive => f64::INFINITY,
        Sign::Negative => f64::NEG_INFINITY,
    }
}

/// Carries out the operations that a magnitude records.
fn compute(m: &Magnitude, input: &str) -> Complex<f64> {
    match m {
        Magnitude::One => Complex::new(1.0, 0.0),
        Magnitude::MinusOne => Complex::new(-1.0, 0.0),
        Magnitude::Number { re, im } => Complex::new(f64::from_bits(*re), f64::from_bits(*im)),
        Magnitude::Real(lit) => Complex::new(literal(input, lit), 0.0),
        Magnitude::Imag(lit) => Complex::new(0.0, literal(input, lit)),
        Magnitude::PowerOfTen(n) => Complex::new(10.0_f64.powi(*n), 0.0),
        Magnitude::Infinite(sign) => Complex::new(signed_infinity(sign), 0.0),
        Magnitude::Product(a, b) => multiply_no_nan(compute(a, input), compute(b, input)),
        Magnitude::Scaled(a, f) => compute(a, input) * factor(f),
        Magnitude::Celsius { value, power, ten } => {
            (compute(value, input) + 273.15f64.powi(*power)) * 10.0_f64.powi(*ten)
        }
        Magnitude::Unbounded(a, sign) => {
            let v = compute(a, input);
            let infinity = signed_infinity(sign);
            let re = if v.re == 0.0 { 0.0 } else { v.re.signum() * infinity };
            let im = if v.im == 0.0 { 0.0 } else { v.re.signum() * infinity };
            Complex::new(re, im)
        }
        Magnitude::Sum(a, b) => compute(a, input) + compute(b, input),
        Magnitude::Difference(a, b) => compute(a, input) - compute(b, input),
        Magnitude::Times(a, b) => compute(a, input) * compute(b, input),
        Magnitude::Over(a, b) => {
            let x = compute(a, input);
            let mut q = x / compute(b, input);
            if !x.is_nan() && (x.re.is_infinite() || x.im.is_infinite()) {
                if q.re.is_nan() {
                    q.re = 0.0;
                }
                if q.im.is_nan() {
                    q.im = 0.0;
                }
            }
            q
        }
        Magnitude::Power(a, n) => compute(a, input).powi(*n),
        Magnitude::Root(a, n) => compute(a, input).powf(1.0 / *n as f64),
    }
}

/// Parses a text and computes its value as a complex number.
fn parse_complex(input: &str) -> Result<Evaluated<Complex<f64>>, ParseError> {
    let quantity = parse(input)?;
    Ok(Evaluated { value: compute(&quantity.value, input), exponents: quantity.unit })
}

/// Parses a text and computes its value as a real number; a value with an
/// imaginary part is refused.
fn parse_real(input: &str) -> Result<Evaluated<f64>, ParseError> {
    let quantity = parse(input)?;
    let value = compute(&quantity.value, input);
    if value.im == 0.0 {
        Ok(Evaluated { value: value.re, exponents: quantity.unit })
    } else {
        Err(ParseError {
            substring: String::new(),
            span: Span { start: 0, end: 0 },
            reason: ParseErrorReason::NotConvertibleFromComplexF64(NotConvertibleFromComplexF64 {
                source: quantity.value,
                target_type: "real",
            }),
        })
    }
}

/// The text of a quantity, as the text of its value and its unit.
fn display(input: &str) -> String {
    let quantity = parse(input).unwrap();
    let value = compute(&quantity.value, input);
    if value.im == 0.0 {
        quantity.to_text(&format!("{}", value.re), false)
    } else {
        quantity.to_text(&format!("{}", value), true)
    }
}

#[test]
fn test_display() {
    {
        assert_eq!(&display("1e3 m^-2"), "1000 m^-2");
    }
    {
        assert_eq!(&display("1 mm^-2"), "1000000 m^-2");
    }
    {
        assert_eq!(&display("1 ms^2"), "0.000001 s^2");
    }
    {
        assert_eq!(&display("1 kg^2"), "1 kg^2");
    }
    {
        assert_eq!(&display("(1 + 2i) A"), "(1+2i) A");
    }
    {
        assert_eq!(&display("(1 + 2j) A"), "(1+2i) A");
    }
}

#[test]
fn display_omits_units_of_exponent_zero() {
    assert_eq!(&display("5"), "5");
    assert_eq!(&display("2 V"), "2 s^-3 m^2 kg A^-1");
    assert_eq!(&display("9.81 m/s^2"), "9.81 s^-2 m");
    assert_eq!(&display("3 mol cd K"), "3 K mol cd");
}

#[test]
fn display_uses_helpers() {
    // Keeps the evaluation helpers of this file in use.
    assert!(parse_real("1 A").is_ok());
    assert!(parse_complex("1i A").is_ok());
}
