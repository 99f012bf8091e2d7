use dyn_quantity::{
    parse, Factor, Literal, Magnitude, NotConvertibleFromComplexF64, ParseError,
    ParseErrorReason, Sign, Span, Unit, UnitsNotEqual,
};
use num::Complex;

/// A quantity whose value has been computed.
#[derive(Debug, Clone, Copy, PartialEq)]
struct Evaluated<V> {
    value: V,
    exponents: Unit,
}

fn literal(input: &str, lit: &Literal) -> f64 {
    if lit.start == lit.end {
        1.0
    } else {
        input[lit.start..lit.end].parse().unwrap()
    }
}

fn multiply_no_nan(a: Complex<f64>, b: Complex<f64>) -> Complex<f64> {
    let mut re = 0.0;
    let mut im = 0.0;
    if !(a.re.is_infinite() && b.re == 0.0) && !(a.re == 0.0 && b.re.is_infinite()) {
        re += a.re * b.re;
    }
    if !(a.im.is_infinite() && b.re == 0.0) && !(a.im == 0.0 && b.re.is_infinite()) {
        im += a.im * b.re;
    }
    if !(a.re.is_infinite() && b.im == 0.0) && !(a.re == 0.0 && b.im.is_infinite()) {
        im += a.re * b.im;
    }
    if !(a.im.is_infinite() && b.im == 0.0) && !(a.im == 0.0 && b.im.is_infinite()) {
        re -= a.im * b.im;
    }
    Complex::new(re, im)
}

fn factor(f: &Factor) -> f64 {
    match *f {
        Factor::Percent => 1e-2,
        Factor::Ten(ten) => 10.0_f64.powi(ten),
        Factor::Pi { power, ten } => std::f64::consts::PI.powi(power) * 10.0_f64.powi(ten),
        Factor::PerMinute { power, ten } => (1.0f64 / 60.0f64).powi(power) * 10.0_f64.powi(ten),
        Factor::Degree { power, ten } => {
            (std::f64::consts::PI / 180.0).powi(power) * 10.0_f64.powi(ten)
        }
    }
}

fn signed_infinity(sign: &Sign) -> f64 {
    match sign {
        Sign::Positive => f64::INFINITY,
        Sign::Negative => f64::NEG_INFINITY,
    }
}

/// Carries out the operations that a magnitude records.
fn compute(m: &Magnitude, input: &str) -> Complex<f64> {
    match m {
        Magnitude::One => Complex::new(1.0, 0.0),
        Magnitude::MinusOne => Complex::new(-1.0, 0.0),
        Magnitude::Number { re, im } => Complex::new(f64::from_bits(*re), f64::from_bits(*im)),
        Magnitude::Real(lit) => Complex::new(literal(input, lit), 0.0),
        Magnitude::Imag(lit) => Complex::new(0.0, literal(input, lit)),
        Magnitude::PowerOfTen(n) => Complex::new(10.0_f64.powi(*n), 0.0),
        Magnitude::Infinite(sign) => Complex::new(signed_infinity(sign), 0.0),
        Magnitude::Product(a, b) => multiply_no_nan(compute(a, input), compute(b, input)),
        Magnitude::Scaled(a, f) => compute(a, input) * factor(f),
        Magnitude::Celsius { value, power, ten } => {
            (compute(value, input) + 273.15f64.powi(*power)) * 10.0_f64.powi(*ten)
        }
        Magnitude::Unbounded(a, sign) => {
            let v = compute(a, input);
            let infinity = signed_infinity(sign);
            let re = if v.re == 0.0 { 0.0 } else { v.re.signum() * infinity };
            let im = if v.im == 0.0 { 0.0 } else { v.re.signum() * infinity };
            Complex::new(re, im)
        }
        Magnitude::Sum(a, b) => compute(a, input) + compute(b, input),
        Magnitude::Difference(a, b) => compute(a, input) - compute(b, input),
        Magnitude::Times(a, b) => compute(a, input) * compute(b, input),
        Magnitude::Over(a, b) => {
            let x = compute(a, input);
            let mut q = x / compute(b, input);
            if !x.is_nan() && (x.re.is_infinite() || x.im.is_infinite()) {
                if q.re.is_nan() {
                    q.re = 0.0;
                }
                if q.im.is_nan() {
                    q.im = 0.0;
                }
            }
            q
        }
        Magnitude::Power(a, n) => compute(a, input).powi(*n),
        Magnitude::Root(a, n) => compute(a, input).powf(1.0 / *n as f64),
    }
}

/// Parses a text and computes its value as a complex number.
fn parse_complex(input: &str) -> Result<Evaluated<Complex<f64>>, ParseError> {
    let quantity = parse(input)?;
    Ok(Evaluated { value: compute(&quantity.value, input), exponents: quantity.unit })
}

/// Parses a text and computes its value as a real number; a value with an
/// imaginary part is refused.
fn parse_real(input: &str) -> Result<Evaluated<f64>, ParseError> {
    let quantity = parse(input)?;
    let value = compute(&quantity.value, input);
    if value.im == 0.0 {
        Ok(Evaluated { value: value.re, exponents: quantity.unit })
    } else {
        Err(ParseError {
            substring: String::new(),
            span: Span { start: 0, end: 0 },
            reason: ParseErrorReason::NotConvertibleFromComplexF64(NotConvertibleFromComplexF64 {
                source: quantity.value,
                target_type: "real",
            }),
        })
    }
}

fn unit(second: i32, meter: i32, kilogram: i32, ampere: i32) -> Unit {
    Unit { second, meter, kilogram, ampere, kelvin: 0, mol: 0, candela: 0 }
}

fn close(a: f64, b: f64) -> bool {
    (a - b).abs() <= 1e-12 * a.abs().max(b.abs()).max(1e-300)
}

const PREFIXES: [(&str, i32); 23] = [
    ("Q", 30),
    ("R", 27),
    ("Y", 24),
    ("Z", 21),
    ("E", 18),
    ("P", 15),
    ("T", 12),
    ("G", 9),
    ("M", 6),
    ("k", 3),
    ("d", -1),
    ("c", -2),
    ("m", -3),
    ("u", -6),
    ("µ", -6),
    ("n", -9),
    ("p", -12),
    ("f", -15),
    ("a", -18),
    ("z", -21),
    ("y", -24),
    ("r", -27),
    ("q", -30),
];

#[test]
fn prefix_equals_power_of_ten() {
    for symbol in ["m", "s", "g", "A", "K", "mol", "cd", "V", "N", "W", "J", "Hz", "Wb", "T", "H", "S", "t", "Ohm", "ohm", "Ω", "Nm"] {
        for (prefix, power) in PREFIXES {
            let short = format!("2.5 {}{}", prefix, symbol);
            let long = format!("2.5e{} {}", power, symbol);
            let a = parse_real(&short).unwrap();
            let b = parse_real(&long).unwrap();
            assert_eq!(a.exponents, b.exponents, "{} / {}", short, long);
            assert!(close(a.value, b.value), "{} = {} / {} = {}", short, a.value, long, b.value);
        }
    }
}

#[test]
fn prefix_examples() {
    assert_eq!(parse_real("1 km").unwrap().value, 1e3);
    assert_eq!(parse_real("1e3 m").unwrap().value, 1e3);
    assert_eq!(parse_real("1 km").unwrap().exponents, unit(0, 1, 0, 0));
    // A gram is a thousandth of the base unit.
    assert!(close(parse_real("1 mg").unwrap().value, 1e-6));
    assert!(close(parse_real("1e-3 g").unwrap().value, 1e-6));
    assert_eq!(parse_real("1 mg").unwrap().exponents, unit(0, 0, 1, 0));
    assert_eq!(parse_real("1 kg").unwrap().value, 1.0);
    // The prefix is raised to the power of the unit.
    assert!(close(parse_real("1 mm^2").unwrap().value, 1e-6));
    assert!(close(parse_real("1 km^-2").unwrap().value, 1e-6));
}

#[test]
fn prefix_records_one_scaling() {
    let quantity = parse("7 km").unwrap();
    assert_eq!(
        quantity.value,
        Magnitude::Scaled(
            Box::new(Magnitude::Real(Literal { start: 0, end: 1 })),
            Factor::Ten(3)
        )
    );
    let quantity = parse("7e3 m").unwrap();
    assert_eq!(
        quantity.value,
        Magnitude::Scaled(
            Box::new(Magnitude::Scaled(
                Box::new(Magnitude::Real(Literal { start: 0, end: 1 })),
                Factor::Ten(3)
            )),
            Factor::Ten(0)
        )
    );
}

#[test]
fn implicit_multiplication() {
    let texts = ["3 A m", "3 * A m", "3 A * m", "3 * A * m"];
    let first = parse(texts[0]).unwrap();
    for text in texts {
        let quantity = parse(text).unwrap();
        assert_eq!(quantity, first, "{}", text);
        let value = parse_real(text).unwrap();
        assert_eq!(value.value, 3.0);
        assert_eq!(value.exponents, unit(0, 1, 0, 1));
    }
}

#[test]
fn mismatch_of_summands() {
    let error = parse("1 + 2V").unwrap_err();
    assert_eq!(
        error.reason,
        ParseErrorReason::UnitsOfSummandsNotIdentical(UnitsNotEqual(
            unit(-3, 2, 1, -1),
            unit(0, 0, 0, 0)
        ))
    );
    assert_eq!(error.span, Span { start: 6, end: 6 });
    assert_eq!(error.substring, "");
    let error = parse("(3 A + 1 s)").unwrap_err();
    assert_eq!(
        error.reason,
        ParseErrorReason::UnitsOfSummandsNotIdentical(UnitsNotEqual(
            unit(1, 0, 0, 0),
            unit(0, 0, 0, 1)
        ))
    );
    assert_eq!(error.span, Span { start: 10, end: 11 });
    assert_eq!(error.substring, ")");
}

#[test]
fn bracket_balance() {
    for text in ["((1 + 3)", "(5))", "1)", "(", ")", "()"] {
        let error = parse(text).unwrap_err();
        assert_eq!(error.reason, ParseErrorReason::UnbalancedBrackets, "{}", text);
    }
    let quantity = parse_real("3 * ((1A + 4A))").unwrap();
    assert_eq!(quantity.value, 15.0);
    assert_eq!(quantity.exponents, unit(0, 0, 0, 1));
    for text in ["3 * (1A + 4A)", "3(1A + 4A)"] {
        let quantity = parse_real(text).unwrap();
        assert_eq!(quantity.value, 15.0);
        assert_eq!(quantity.exponents, unit(0, 0, 0, 1));
    }
}

#[test]
fn complex_narrowing() {
    let error = parse_real("5i").unwrap_err();
    assert!(matches!(error.reason, ParseErrorReason::NotConvertibleFromComplexF64(_)));
    let quantity = parse_real("(2i)^2").unwrap();
    assert_eq!(quantity.value, -4.0);
    assert_eq!(quantity.exponents, unit(0, 0, 0, 0));
    let quantity = parse_complex("5i").unwrap();
    assert_eq!(quantity.value, Complex::new(0.0, 5.0));
}

#[test]
fn angle_conversion() {
    let quantity = parse_real("180 degree/s").unwrap();
    assert_eq!(quantity.value, std::f64::consts::PI);
    assert_eq!(quantity.exponents, unit(-1, 0, 0, 0));
    let quantity = parse_real("2 rad").unwrap();
    assert_eq!(quantity.value, 2.0);
    assert_eq!(quantity.exponents, unit(0, 0, 0, 0));
    let quantity = parse_real("90 °").unwrap();
    assert!(close(quantity.value, std::f64::consts::FRAC_PI_2));
}

#[test]
fn zero_times_infinity() {
    let quantity = parse_real("inf 0").unwrap();
    assert_eq!(quantity.value, 0.0);
    let quantity = parse_real("0*inf").unwrap();
    assert_eq!(quantity.value, 0.0);
    let quantity = parse_real("0*-inf A").unwrap();
    assert_eq!(quantity.value, 0.0);
    assert!(!quantity.value.is_nan());
    let quantity = parse_complex("inf 0i").unwrap();
    assert_eq!(quantity.value, Complex::new(0.0, 0.0));
    assert_eq!(
        multiply_no_nan(Complex::new(0.0, 0.0), Complex::new(f64::INFINITY, 0.0)),
        Complex::new(0.0, 0.0)
    );
    assert_eq!(
        multiply_no_nan(Complex::new(f64::INFINITY, 0.0), Complex::new(0.0, 0.0)),
        Complex::new(0.0, 0.0)
    );
}

#[test]
fn end_to_end_examples() {
    let quantity = parse_real("1 kA / m * 3.14 m^2").unwrap();
    assert_eq!(quantity.value, 3140.0);
    assert_eq!(quantity.exponents, unit(0, 1, 0, 1));

    let quantity = parse_complex("(1 A + 2i A)^2").unwrap();
    assert_eq!(quantity.value, Complex::new(-3.0, 4.0));
    assert_eq!(quantity.exponents, unit(0, 0, 0, 2));

    let error = parse("2 l").unwrap_err();
    assert_eq!(error.reason, ParseErrorReason::UnexpectedToken);
    assert_eq!(error.span, Span { start: 2, end: 3 });
    assert_eq!(error.substring, "l");

    let error = parse("*3").unwrap_err();
    assert_eq!(error.reason, ParseErrorReason::MustNotStartWith);
    assert_eq!(error.span, Span { start: 0, end: 1 });

    let quantity = parse_real("3e9((0.5 / kg - 1.5 / kg)) ms^3 + 2 s^3/kg").unwrap();
    assert_eq!(quantity.value, -1.0);
    assert_eq!(quantity.exponents, unit(3, 0, -1, 0));
}

#[test]
fn every_reason() {
    assert_eq!(parse("1 $").unwrap_err().reason, ParseErrorReason::UnexpectedToken);
    assert_eq!(parse("").unwrap_err().reason, ParseErrorReason::InputIsEmpty);
    assert_eq!(parse(" \t\n").unwrap_err().reason, ParseErrorReason::InputIsEmpty);
    assert_eq!(parse("(1").unwrap_err().reason, ParseErrorReason::UnbalancedBrackets);
    assert_eq!(parse("5 32").unwrap_err().reason, ParseErrorReason::TwoNumbersWithoutOperator);
    assert_eq!(parse("2i 3").unwrap_err().reason, ParseErrorReason::TwoNumbersWithoutOperator);
    assert_eq!(parse("1 + * 2").unwrap_err().reason, ParseErrorReason::TwoOperatorsWithoutNumber);
    assert_eq!(parse("/ 2").unwrap_err().reason, ParseErrorReason::MustNotStartWith);
    assert!(matches!(
        parse("1 A - 1 V").unwrap_err().reason,
        ParseErrorReason::UnitsOfSummandsNotIdentical(_)
    ));
    assert_eq!(
        parse("m^2147483647 m").unwrap_err().reason,
        ParseErrorReason::CouldNotParse
    );
    assert_eq!(parse("km^2147483647").unwrap_err().reason, ParseErrorReason::CouldNotParse);
}

#[test]
fn two_numbers_need_an_operator() {
    let error = parse("5 32").unwrap_err();
    assert_eq!(error.span, Span { start: 2, end: 4 });
    assert_eq!(error.substring, "32");
    assert_eq!(parse_real("5 * 32").unwrap().value, 160.0);
    assert_eq!(parse_real("5 m 32").unwrap().value, 160.0);
    assert_eq!(parse_real("(5) 32").unwrap().value, 160.0);
    assert_eq!(parse_real("5e1 3").unwrap().value, 150.0);
}

#[test]
fn invalid_lexemes() {
    // A letter before a unit that is no metric prefix.
    let error = parse("1 metre").unwrap_err();
    assert_eq!(error.reason, ParseErrorReason::UnexpectedToken);
    assert_eq!(error.span, Span { start: 3, end: 5 });
    assert_eq!(error.substring, "et");
    // An exponent that is too large.
    let error = parse("1 s^99999999999").unwrap_err();
    assert_eq!(error.reason, ParseErrorReason::UnexpectedToken);
    assert_eq!(error.span, Span { start: 2, end: 15 });
    // A character of several bytes.
    let error = parse("1 €").unwrap_err();
    assert_eq!(error.reason, ParseErrorReason::UnexpectedToken);
    assert_eq!(error.span, Span { start: 2, end: 5 });
    assert_eq!(error.substring, "€");
    // A space before `i` belongs to the imaginary unit, so that `inf`
    // cannot follow a space.
    let error = parse("2 inf").unwrap_err();
    assert_eq!(error.span, Span { start: 3, end: 4 });
    // The first failure is the one reported.
    assert_eq!(parse("*3 $").unwrap_err().reason, ParseErrorReason::MustNotStartWith);
    assert!(parse("(2 km)^V").is_err());
    assert!(parse("(2 km)^(3)").is_err());
}

#[test]
fn derived_units() {
    assert_eq!(parse_real("1 N").unwrap().exponents, unit(-2, 1, 1, 0));
    assert_eq!(parse_real("1 Nm").unwrap().exponents, unit(-2, 2, 1, 0));
    assert_eq!(parse_real("1 W").unwrap().exponents, unit(-3, 2, 1, 0));
    assert_eq!(parse_real("1 J").unwrap().exponents, unit(-2, 2, 1, 0));
    assert_eq!(parse_real("1 V").unwrap().exponents, unit(-3, 2, 1, -1));
    assert_eq!(parse_real("1 Wb").unwrap().exponents, unit(-2, 2, 1, -1));
    assert_eq!(parse_real("1 T").unwrap().exponents, unit(-2, 0, 1, -1));
    assert_eq!(parse_real("1 H").unwrap().exponents, unit(-2, 2, 1, -2));
    assert_eq!(parse_real("1 Hz").unwrap().exponents, unit(-1, 0, 0, 0));
    assert_eq!(parse_real("1 S").unwrap().exponents, unit(3, -2, -1, 2));
    assert_eq!(parse_real("1 Ohm").unwrap().exponents, unit(-3, 2, 1, -2));
    assert_eq!(parse_real("1 Ω").unwrap().exponents, unit(-3, 2, 1, -2));
    assert_eq!(parse_real("1 N^2").unwrap().exponents, unit(-4, 2, 2, 0));
    assert_eq!(parse_real("1 N^-1").unwrap().exponents, unit(2, -1, -1, 0));
    let ton = parse_real("2 t").unwrap();
    assert_eq!(ton.value, 2e3);
    assert_eq!(ton.exponents, unit(0, 0, 1, 0));
    let kiloton = parse_real("2 kt").unwrap();
    assert_eq!(kiloton.value, 2e6);
    let rpm = parse_real("60 rpm").unwrap();
    assert!(close(rpm.value, 1.0));
    assert_eq!(rpm.exponents, unit(-1, 0, 0, 0));
    let percent = parse_real("50 %").unwrap();
    assert_eq!(percent.value, 0.5);
    let pi = parse_real("pi^2").unwrap();
    assert!(close(pi.value, std::f64::consts::PI * std::f64::consts::PI));
}

#[test]
fn celsius_adds_an_offset() {
    let quantity = parse_real("20 °C").unwrap();
    assert!(close(quantity.value, 293.15));
    assert_eq!(
        quantity.exponents,
        Unit { second: 0, meter: 0, kilogram: 0, ampere: 0, kelvin: 1, mol: 0, candela: 0 }
    );
    assert_eq!(
        parse("20 °C").unwrap().value,
        Magnitude::Celsius {
            value: Box::new(Magnitude::Real(Literal { start: 0, end: 2 })),
            power: 1,
            ten: 0
        }
    );
}

#[test]
fn infinity_keeps_the_sign() {
    assert_eq!(parse_real("inf").unwrap().value, f64::INFINITY);
    assert_eq!(parse_real("-inf").unwrap().value, f64::NEG_INFINITY);
    assert_eq!(parse_real("2*inf").unwrap().value, f64::INFINITY);
    assert_eq!(parse_real("-2*inf").unwrap().value, f64::NEG_INFINITY);
    assert_eq!(parse_real("Infinity m").unwrap().value, f64::INFINITY);
    assert_eq!(parse_real("-.INF").unwrap().value, f64::NEG_INFINITY);
}

#[test]
fn an_unbound_number_is_kept_as_bits() {
    let value = Magnitude::Number { re: 1.5f64.to_bits(), im: (-2.0f64).to_bits() };
    assert_eq!(compute(&value, ""), Complex::new(1.5, -2.0));
    let root = Magnitude::Root(Box::new(Magnitude::Number { re: 16f64.to_bits(), im: 0 }), 2);
    assert!(close(compute(&root, "").re, 4.0));
    let difference = Magnitude::Difference(Box::new(Magnitude::One), Box::new(Magnitude::MinusOne));
    assert_eq!(compute(&difference, ""), Complex::new(2.0, 0.0));
    let sign = Sign::Negative;
    assert_eq!(signed_infinity(&sign), f64::NEG_INFINITY);
}
