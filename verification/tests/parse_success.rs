use std::f64::{consts::PI, INFINITY, NEG_INFINITY};

use dyn_quantity::{
    parse, Factor, Literal, Magnitude, NotConvertibleFromComplexF64, ParseError,
    ParseErrorReason, Sign, Span, Unit, UnitExponents,
};
use num::Complex;

/// A quantity whose value has been computed.
#[derive(Debug, Clone, Copy, PartialEq)]
struct Evaluated<V> {
    value: V,
    exponents: Unit,
}

fn literal(input: &str, lit: &Literal) -> f64 {
    if lit.start == lit.end {
        1.0
    } else {
        input[lit.start..lit.end].parse().unwrap()
    }
}

fn multiply_no_nan(a: Complex<f64>, b: Complex<f64>) -> Complex<f64> {
    let mut re = 0.0;
    let mut im = 0.0;
    if !(a.re.is_infinite() && b.re == 0.0) && !(a.re == 0.0 && b.re.is_infinite()) {
        re += a.re * b.re;
    }
    if !(a.im.is_infinite() && b.re == 0.0) && !(a.im == 0.0 && b.re.is_infinite()) {
        im += a.im * b.re;
    }
    if !(a.re.is_infinite() && b.im == 0.0) && !(a.re == 0.0 && b.im.is_infinite()) {
        im += a.re * b.im;
    }
    if !(a.im.is_infinite() && b.im == 0.0) && !(a.im == 0.0 && b.im.is_infinite()) {
        re -= a.im * b.im;
    }
    Complex::new(re, im)
}

fn factor(f: &Factor) -> f64 {
    match *f {
        Factor::Percent => 1e-2,
        Factor::Ten(ten) => 10.0_f64.powi(ten),
        Factor::Pi { power, ten } => std::f64::consts::PI.powi(power) * 10.0_f64.powi(ten),
        Factor::PerMinute { power, ten } => (1.0f64 / 60.0f64).powi(power) * 10.0_f64.powi(ten),
        Factor::Degree { power, ten } => {
            (std::f64::consts::PI / 180.0).powi(power) * 10.0_f64.powi(ten)
        }
    }
}

fn signed_infinity(sign: &Sign) -> f64 {
    match sign {
        Sign::Positive => f64::INFINITY,
        Sign::Negative => f64::NEG_INFINITY,
    }
}

/// Carries out the operations that a magnitude records.
fn compute(m: &Magnitude, input: &str) -> Complex<f64> {
    match m {
        Magnitude::One => Complex::new(1.0, 0.0),
        Magnitude::MinusOne => Complex::new(-1.0, 0.0),
        Magnitude::Number { re, im } => Complex::new(f64::from_bits(*re), f64::from_bits(*im)),
        Magnitude::Real(lit) => Complex::new(literal(input, lit), 0.0),
        Magnitude::Imag(lit) => Complex::new(0.0, literal(input, lit)),
        Magnitude::PowerOfTen(n) => Complex::new(10.0_f64.powi(*n), 0.0),
        Magnitude::Infinite(sign) => Complex::new(signed_infinity(sign), 0.0),
        Magnitude::Product(a, b) => multiply_no_nan(compute(a, input), compute(b, input)),
        Magnitude::Scaled(a, f) => compute(a, input) * factor(f),
        Magnitude::Celsius { value, power, ten } => {
            (compute(value, input) + 273.15f64.powi(*power)) * 10.0_f64.powi(*ten)
        }
        Magnitude::Unbounded(a, sign) => {
            let v = compute(a, input);
            let infinity = signed_infinity(sign);
            let re = if v.re == 0.0 { 0.0 } else { v.re.signum() * infinity };
            let im = if v.im == 0.0 { 0.0 } else { v.re.signum() * infinity };
            Complex::new(re, im)
        }
        Magnitude::Sum(a, b) => compute(a, input) + compute(b, input),
        Magnitude::Difference(a, b) => compute(a, input) - compute(b, input),
        Magnitude::Times(a, b) => compute(a, input) * compute(b, input),
        Magnitude::Over(a, b) => {
            let x = compute(a, input);
            let mut q = x / compute(b, input);
            if !x.is_nan() && (x.re.is_infinite() || x.im.is_infinite()) {
                if q.re.is_nan() {
                    q.re = 0.0;
                }
                if q.im.is_nan() {
                    q.im = 0.0;
                }
            }
            q
        }
        Magnitude::Power(a, n) => compute(a, input).powi(*n),
        Magnitude::Root(a, n) => compute(a, input).powf(1.0 / *n as f64),
    }
}

/// Parses a text and computes its value as a complex number.
fn parse_complex(input: &str) -> Result<Evaluated<Complex<f64>>, ParseError> {
    let quantity = parse(input)?;
    Ok(Evaluated { value: compute(&quantity.value, input), exponents: quantity.unit })
}

/// Parses a text and computes its value as a real number; a value with an
/// imaginary part is refused.
fn parse_real(input: &str) -> Result<Evaluated<f64>, ParseError> {
    let quantity = parse(input)?;
    let value = compute(&quantity.value, input);
    if value.im == 0.0 {
        Ok(Evaluated { value: value.re, exponents: quantity.unit })
    } else {
        Err(ParseError {
            substring: String::new(),
            span: Span { start: 0, end: 0 },
            reason: ParseErrorReason::NotConvertibleFromComplexF64(NotConvertibleFromComplexF64 {
                source: quantity.value,
                target_type: "real",
            }),
        })
    }
}

#[test]
fn test_addition() {
    {
        let quantity = parse_real("3 A").unwrap();
        assert!((quantity.value - 3.0).abs() <= 1e-8);
        assert_eq!(
            quantity.exponents,
            UnitExponents {
                second: 0,
                meter: 0,
                kilogram: 0,
                ampere: 1,
                kelvin: 0,
                mol: 0,
                candela: 0
            }
        )
    }
    {
        let quantity = parse_real("+3 A").unwrap();
        assert!((quantity.value - 3.0).abs() <= 1e-8);
        assert_eq!(
            quantity.exponents,
            UnitExponents {
                second: 0,
                meter: 0,
                kilogram: 0,
                ampere: 1,
                kelvin: 0,
                mol: 0,
                candela: 0
            }
        )
    }
    {
        let quantity = parse_real("-3 A").unwrap();
        assert!((quantity.value - -3.0).abs() <= 1e-8);
        assert_eq!(
            quantity.exponents,
            UnitExponents {
                second: 0,
                meter: 0,
                kilogram: 0,
                ampere: 1,
                kelvin: 0,
                mol: 0,
                candela: 0
            }
        )
    }
    {
        let quantity = parse_real("3 A + 1 A").unwrap();
        assert!((quantity.value - 4.0).abs() <= 1e-8);
        assert_eq!(
            quantity.exponents,
            UnitExponents {
                second: 0,
                meter: 0,
                kilogram: 0,
                ampere: 1,
                kelvin: 0,
                mol: 0,
                candela: 0
            }
        )
    }
    {
        let quantity = parse_real("3 A + 1 kA").unwrap();
        assert!((quantity.value - 1003.0).abs() <= 1e-8);
        assert_eq!(
            quantity.exponents,
            UnitExponents {
                second: 0,
                meter: 0,
                kilogram: 0,
                ampere: 1,
                kelvin: 0,
                mol: 0,
                candela: 0
            }
        )
    }

    // Mismatching types (trying to add ampere to seconds)
    {
        let error = parse_real("3 A + 1 s").unwrap_err();
        match error.reason {
            ParseErrorReason::UnitsOfSummandsNotIdentical(_) => (),
            _ => panic!("wrong error type"),
        }
    }
}

#[test]
fn test_addition_with_brackets() {
    // Add with brackets
    {
        let quantity = parse_real("(3 A + 1 kA)").unwrap();
        assert!((quantity.value - 1003.0).abs() <= 1e-8);
        assert_eq!(
            quantity.exponents,
            UnitExponents {
                second: 0,
                meter: 0,
                kilogram: 0,
                ampere: 1,
                kelvin: 0,
                mol: 0,
                candela: 0
            }
        )
    }
    {
        let quantity = parse_real("1 A + (3 A + 1 kA)").unwrap();
        assert!((quantity.value - 1004.0).abs() <= 1e-8);
        assert_eq!(
            quantity.exponents,
            UnitExponents {
                second: 0,
                meter: 0,
                kilogram: 0,
                ampere: 1,
                kelvin: 0,
                mol: 0,
                candela: 0
            }
        )
    }
    {
        let quantity = parse_real("1 A + (-3 A + 1 kA)").unwrap();
        assert!((quantity.value - 998.0).abs() <= 1e-8);
        assert_eq!(
            quantity.exponents,
            UnitExponents {
                second: 0,
                meter: 0,
                kilogram: 0,
                ampere: 1,
                kelvin: 0,
                mol: 0,
                candela: 0
            }
        )
    }
    {
        let quantity = parse_real("12 A - (3 A + 5 A)").unwrap();
        assert!((quantity.value - 4.0).abs() <= 1e-8);
        assert_eq!(
            quantity.exponents,
            UnitExponents {
                second: 0,
                meter: 0,
                kilogram: 0,
                ampere: 1,
                kelvin: 0,
                mol: 0,
                candela: 0
            }
        )
    }
    {
        let quantity = parse_real("12 A - (-3 A + 5 A)").unwrap();
        assert!((quantity.value - 10.0).abs() <= 1e-8);
        assert_eq!(
            quantity.exponents,
            UnitExponents {
                second: 0,
                meter: 0,
                kilogram: 0,
                ampere: 1,
                kelvin: 0,
                mol: 0,
                candela: 0
            }
        )
    }

    // Multiply and divide
    {
        let quantity = parse_real("1 A * 2A").unwrap();
        assert!((quantity.value - 2.0).abs() <= 1e-8);
        assert_eq!(
            quantity.exponents,
            UnitExponents {
                second: 0,
                meter: 0,
                kilogram: 0,
                ampere: 2,
                kelvin: 0,
                mol: 0,
                candela: 0
            }
        )
    }
    {
        let quantity = parse_real("10 A * (2+8)A").unwrap();
        assert!((quantity.value - 100.0).abs() <= 1e-8);
        assert_eq!(
            quantity.exponents,
            UnitExponents {
                second: 0,
                meter: 0,
                kilogram: 0,
                ampere: 2,
                kelvin: 0,
                mol: 0,
                candela: 0
            }
        )
    }
    {
        let quantity = parse_real("10 A * A(2+8)").unwrap();
        assert!((quantity.value - 100.0).abs() <= 1e-8);
        assert_eq!(
            quantity.exponents,
            UnitExponents {
                second: 0,
                meter: 0,
                kilogram: 0,
                ampere: 2,
                kelvin: 0,
                mol: 0,
                candela: 0
            }
        )
    }
    {
        let quantity = parse_real("10 (2+8) A").unwrap();
        assert!((quantity.value - 100.0).abs() <= 1e-8);
        assert_eq!(
            quantity.exponents,
            UnitExponents {
                second: 0,
                meter: 0,
                kilogram: 0,
                ampere: 1,
                kelvin: 0,
                mol: 0,
                candela: 0
            }
        )
    }
}

#[test]
fn parse_success_test_division() {
    {
        let quantity = parse_real("2 / 2 A").unwrap();
        assert!((quantity.value - 1.0).abs() <= 1e-8);
        assert_eq!(
            quantity.exponents,
            UnitExponents {
                second: 0,
                meter: 0,
                kilogram: 0,
                ampere: 1,
                kelvin: 0,
                mol: 0,
                candela: 0
            }
        )
    }
    {
        let quantity = parse_real("(2 / 2 A)").unwrap();
        assert!((quantity.value - 1.0).abs() <= 1e-8);
        assert_eq!(
            quantity.exponents,
            UnitExponents {
                second: 0,
                meter: 0,
                kilogram: 0,
                ampere: 1,
                kelvin: 0,
                mol: 0,
                candela: 0
            }
        )
    }
    {
        let quantity = parse_real("(2 / 2) A").unwrap();
        assert!((quantity.value - 1.0).abs() <= 1e-8);
        assert_eq!(
            quantity.exponents,
            UnitExponents {
                second: 0,
                meter: 0,
                kilogram: 0,
                ampere: 1,
                kelvin: 0,
                mol: 0,
                candela: 0
            }
        )
    }
    {
        let quantity = parse_real("12 A / (1 + 5) * 2A").unwrap();
        assert!((quantity.value - 4.0).abs() <= 1e-8);
        assert_eq!(
            quantity.exponents,
            UnitExponents {
                second: 0,
                meter: 0,
                kilogram: 0,
                ampere: 2,
                kelvin: 0,
                mol: 0,
                candela: 0
            }
        )
    }
    {
        let quantity = parse_real("12 A / (1 + 5) 2A").unwrap();
        assert!((quantity.value - 4.0).abs() <= 1e-8);
        assert_eq!(
            quantity.exponents,
            UnitExponents {
                second: 0,
                meter: 0,
                kilogram: 0,
                ampere: 2,
                kelvin: 0,
                mol: 0,
                candela: 0
            }
        )
    }
    {
        let quantity = parse_real("12 A / ((1 + 5 )2A)").unwrap();
        assert!((quantity.value - 1.0).abs() <= 1e-8);
        assert_eq!(
            quantity.exponents,
            UnitExponents {
                second: 0,
                meter: 0,
                kilogram: 0,
                ampere: 0,
                kelvin: 0,
                mol: 0,
                candela: 0
            }
        )
    }
    {
        let quantity = parse_real("12 A / (2A + 10 A)").unwrap();
        assert!((quantity.value - 1.0).abs() <= 1e-8);
        assert_eq!(
            quantity.exponents,
            UnitExponents {
                second: 0,
                meter: 0,
                kilogram: 0,
                ampere: 0,
                kelvin: 0,
                mol: 0,
                candela: 0
            }
        )
    }
    {
        let quantity = parse_real("1 A / (2A)").unwrap();
        assert!((quantity.value - 0.5).abs() <= 1e-8);
        assert_eq!(
            quantity.exponents,
            UnitExponents {
                second: 0,
                meter: 0,
                kilogram: 0,
                ampere: 0,
                kelvin: 0,
                mol: 0,
                candela: 0
            }
        )
    }
    {
        let quantity = parse_real("1 A / 2").unwrap();
        assert!((quantity.value - 0.5).abs() <= 1e-8);
        assert_eq!(
            quantity.exponents,
            UnitExponents {
                second: 0,
                meter: 0,
                kilogram: 0,
                ampere: 1,
                kelvin: 0,
                mol: 0,
                candela: 0
            }
        )
    }
    {
        let quantity = parse_real("4 / 2 / 2").unwrap();
        assert!((quantity.value - 1.0).abs() <= 1e-8);
        assert_eq!(
            quantity.exponents,
            UnitExponents {
                second: 0,
                meter: 0,
                kilogram: 0,
                ampere: 0,
                kelvin: 0,
                mol: 0,
                candela: 0
            }
        )
    }
    {
        let quantity = parse_real("4 / (2 / 2)").unwrap();
        assert!((quantity.value - 4.0).abs() <= 1e-8);
        assert_eq!(
            quantity.exponents,
            UnitExponents {
                second: 0,
                meter: 0,
                kilogram: 0,
                ampere: 0,
                kelvin: 0,
                mol: 0,
                candela: 0
            }
        )
    }
    {
        let quantity = parse_real("-4 / -4").unwrap();
        assert!((quantity.value - 1.0).abs() <= 1e-8);
        assert_eq!(
            quantity.exponents,
            UnitExponents {
                second: 0,
                meter: 0,
                kilogram: 0,
                ampere: 0,
                kelvin: 0,
                mol: 0,
                candela: 0
            }
        )
    }
    {
        let quantity = parse_real("-4 / -4 + 1").unwrap();
        assert!((quantity.value - 2.0).abs() <= 1e-8);
        assert_eq!(
            quantity.exponents,
            UnitExponents {
                second: 0,
                meter: 0,
                kilogram: 0,
                ampere: 0,
                kelvin: 0,
                mol: 0,
                candela: 0
            }
        )
    }
    {
        let quantity = parse_real("-4 / (2 + 2) + 1").unwrap();
        assert!((quantity.value - 0.0).abs() <= 1e-8);
        assert_eq!(
            quantity.exponents,
            UnitExponents {
                second: 0,
                meter: 0,
                kilogram: 0,
                ampere: 0,
                kelvin: 0,
                mol: 0,
                candela: 0
            }
        )
    }
}

#[test]
fn test_parse_power_bracket() {
    {
        let quantity = parse_real("(2A+8A)^2").unwrap();
        assert!((quantity.value - 100.0).abs() <= 1e-8);
        assert_eq!(
            quantity.exponents,
            UnitExponents {
                second: 0,
                meter: 0,
                kilogram: 0,
                ampere: 2,
                kelvin: 0,
                mol: 0,
                candela: 0
            }
        )
    }
    {
        let quantity = parse_real("1 / (2A+8A)^2").unwrap();
        assert!((quantity.value - 0.01).abs() <= 1e-8);
        assert_eq!(
            quantity.exponents,
            UnitExponents {
                second: 0,
                meter: 0,
                kilogram: 0,
                ampere: -2,
                kelvin: 0,
                mol: 0,
                candela: 0
            }
        )
    }
    {
        let quantity = parse_real("(2*s^3)^2").unwrap();
        assert!((quantity.value - 4.0).abs() <= 1e-8);
        assert_eq!(
            quantity.exponents,
            UnitExponents {
                second: 6,
                meter: 0,
                kilogram: 0,
                ampere: 0,
                kelvin: 0,
                mol: 0,
                candela: 0
            }
        )
    }
    {
        let quantity = parse_real("8 s / (2*s^3)^2").unwrap();
        assert!((quantity.value - 2.0).abs() <= 1e-8);
        assert_eq!(
            quantity.exponents,
            UnitExponents {
                second: -5,
                meter: 0,
                kilogram: 0,
                ampere: 0,
                kelvin: 0,
                mol: 0,
                candela: 0
            }
        )
    }
    {
        let quantity = parse_real("8 s / ((2*s^3)^2)").unwrap();
        assert!((quantity.value - 2.0).abs() <= 1e-8);
        assert_eq!(
            quantity.exponents,
            UnitExponents {
                second: -5,
                meter: 0,
                kilogram: 0,
                ampere: 0,
                kelvin: 0,
                mol: 0,
                candela: 0
            }
        )
    }
    {
        let quantity = parse_real("8 s / ((2*s^3))^2").unwrap();
        assert!((quantity.value - 2.0).abs() <= 1e-8);
        assert_eq!(
            quantity.exponents,
            UnitExponents {
                second: -5,
                meter: 0,
                kilogram: 0,
                ampere: 0,
                kelvin: 0,
                mol: 0,
                candela: 0
            }
        )
    }
    {
        let quantity = parse_real("4e2 mWb / (2*s^3)^2").unwrap();
        assert!((quantity.value - 0.1).abs() <= 1e-8);
        assert_eq!(
            quantity.exponents,
            UnitExponents {
                second: -8,
                meter: 2,
                kilogram: 1,
                ampere: -1,
                kelvin: 0,
                mol: 0,
                candela: 0
            }
        )
    }
}

#[test]
fn test_parse_nested_brackets() {
    {
        let quantity = parse_real("(((2A)) + 1 A)").unwrap();
        assert!((quantity.value - 3.0).abs() <= 1e-8);
        assert_eq!(
            quantity.exponents,
            UnitExponents {
                second: 0,
                meter: 0,
                kilogram: 0,
                ampere: 1,
                kelvin: 0,
                mol: 0,
                candela: 0
            }
        )
    }
}

#[test]
fn test_parse_real_quantities() {
    {
        let quantity = parse_real("2.0 A/m * 3.0 H/m").unwrap();
        assert!((quantity.value - 6.0).abs() <= 1e-8);
        assert_eq!(
            quantity.exponents,
            UnitExponents {
                second: -2,
                meter: 0,
                kilogram: 1,
                ampere: -1,
                kelvin: 0,
                mol: 0,
                candela: 0
            }
        )
    }
    {
        let quantity = parse_real("2/PI N").unwrap();
        assert_eq!(quantity.value, 2.0 / PI);
        assert_eq!(
            quantity.exponents,
            UnitExponents {
                second: -2,
                meter: 1,
                kilogram: 1,
                ampere: 0,
                kelvin: 0,
                mol: 0,
                candela: 0
            }
        )
    }
    {
        let quantity = parse_real("2/(PI N)").unwrap();
        assert_eq!(quantity.value, 2.0 / PI);
        assert_eq!(
            quantity.exponents,
            UnitExponents {
                second: 2,
                meter: -1,
                kilogram: -1,
                ampere: 0,
                kelvin: 0,
                mol: 0,
                candela: 0
            }
        )
    }
    {
        let quantity = parse_real("1/56 MS*m^-1").unwrap();
        assert!((quantity.value - 1e6 / 56.0).abs() <= 1e-6);
        assert_eq!(
            quantity.exponents,
            UnitExponents {
                second: 3,
                meter: -3,
                kilogram: -1,
                ampere: 2,
                kelvin: 0,
                mol: 0,
                candela: 0
            }
        )
    }
    {
        let quantity = parse_real("1/56 MS/mm").unwrap();
        assert!((quantity.value - 1e9 / 56.0).abs() <= 1e-6);
        assert_eq!(
            quantity.exponents,
            UnitExponents {
                second: 3,
                meter: -3,
                kilogram: -1,
                ampere: 2,
                kelvin: 0,
                mol: 0,
                candela: 0
            }
        )
    }
    {
        let quantity = parse_real("1/56 MS*mm^-1").unwrap();
        assert!((quantity.value - 1e9 / 56.0).abs() <= 1e-6);
        assert_eq!(
            quantity.exponents,
            UnitExponents {
                second: 3,
                meter: -3,
                kilogram: -1,
                ampere: 2,
                kelvin: 0,
                mol: 0,
                candela: 0
            }
        )
    }
    {
        let quantity = parse_real("4.0 V / (2.0 mA)").unwrap();
        assert!((quantity.value - 2e3).abs() <= 1e-6);
        assert_eq!(
            quantity.exponents,
            UnitExponents {
                second: -3,
                meter: 2,
                kilogram: 1,
                ampere: -2,
                kelvin: 0,
                mol: 0,
                candela: 0
            }
        )
    }
    {
        let quantity = parse_real("4.0 V / 2.0 / mA").unwrap();
        assert!((quantity.value - 2e3).abs() <= 1e-6);
        assert_eq!(
            quantity.exponents,
            UnitExponents {
                second: -3,
                meter: 2,
                kilogram: 1,
                ampere: -2,
                kelvin: 0,
                mol: 0,
                candela: 0
            }
        )
    }
    {
        let quantity = parse_real("1/4 s^3/s^2").unwrap();
        assert_eq!(quantity.value, 0.25);
        assert_eq!(
            quantity.exponents,
            UnitExponents {
                second: 1,
                meter: 0,
                kilogram: 0,
                ampere: 0,
                kelvin: 0,
                mol: 0,
                candela: 0
            }
        )
    }
    {
        let quantity = parse_real("1/4 Ohm*mm").unwrap();
        assert_eq!(quantity.value, 0.25e-3);
        assert_eq!(
            quantity.exponents,
            UnitExponents {
                second: -3,
                meter: 3,
                kilogram: 1,
                ampere: -2,
                kelvin: 0,
                mol: 0,
                candela: 0
            }
        )
    }
    {
        let quantity = parse_real("1/4 ohm*mm").unwrap();
        assert_eq!(quantity.value, 0.25e-3);
        assert_eq!(
            quantity.exponents,
            UnitExponents {
                second: -3,
                meter: 3,
                kilogram: 1,
                ampere: -2,
                kelvin: 0,
                mol: 0,
                candela: 0
            }
        )
    }
    {
        let quantity = parse_real("10 V").unwrap();
        assert_eq!(quantity.value, 10.0);
        assert_eq!(
            quantity.exponents,
            UnitExponents {
                second: -3,
                meter: 2,
                kilogram: 1,
                ampere: -1,
                kelvin: 0,
                mol: 0,
                candela: 0
            }
        )
    }
    {
        let quantity = parse_real("PI µV/mA").unwrap();
        assert_eq!(quantity.value, PI * 1e-3);
        assert_eq!(
            quantity.exponents,
            UnitExponents {
                second: -3,
                meter: 2,
                kilogram: 1,
                ampere: -2,
                kelvin: 0,
                mol: 0,
                candela: 0
            }
        )
    }
    {
        let quantity = parse_real("1/4 mm^2").unwrap();
        assert_eq!(quantity.value, 0.25e-6);
        assert_eq!(
            quantity.exponents,
            UnitExponents {
                second: 0,
                meter: 2,
                kilogram: 0,
                ampere: 0,
                kelvin: 0,
                mol: 0,
                candela: 0
            }
        )
    }
    {
        let quantity = parse_real("1/4 mm*mm").unwrap();
        assert_eq!(quantity.value, 0.25e-6);
        assert_eq!(
            quantity.exponents,
            UnitExponents {
                second: 0,
                meter: 2,
                kilogram: 0,
                ampere: 0,
                kelvin: 0,
                mol: 0,
                candela: 0
            }
        )
    }
    {
        let quantity = parse_real("300 kW").unwrap();
        assert_eq!(quantity.value, 3e5);
        assert_eq!(
            quantity.exponents,
            UnitExponents {
                second: -3,
                meter: 2,
                kilogram: 1,
                ampere: 0,
                kelvin: 0,
                mol: 0,
                candela: 0
            }
        )
    }
    {
        let quantity = parse_real("300 GJ/W").unwrap();
        assert_eq!(quantity.value, 3e11);
        assert_eq!(
            quantity.exponents,
            UnitExponents {
                second: 1,
                meter: 0,
                kilogram: 0,
                ampere: 0,
                kelvin: 0,
                mol: 0,
                candela: 0
            }
        )
    }
    {
        let quantity = parse_real("3 t").unwrap();
        assert_eq!(quantity.value, 3e3);
        assert_eq!(
            quantity.exponents,
            UnitExponents {
                second: 0,
                meter: 0,
                kilogram: 1,
                ampere: 0,
                kelvin: 0,
                mol: 0,
                candela: 0
            }
        )
    }
    {
        let quantity = parse_real("3 mW / kg").unwrap();
        assert_eq!(quantity.value, 3e-3);
        assert_eq!(
            quantity.exponents,
            UnitExponents {
                second: -3,
                meter: 2,
                kilogram: 0,
                ampere: 0,
                kelvin: 0,
                mol: 0,
                candela: 0
            }
        )
    }
    {
        let quantity = parse_real("210 mH").unwrap();
        assert_eq!(quantity.value, 0.21);
        assert_eq!(
            quantity.exponents,
            UnitExponents {
                second: -2,
                meter: 2,
                kilogram: 1,
                ampere: -2,
                kelvin: 0,
                mol: 0,
                candela: 0
            }
        )
    }
    {
        let quantity = parse_real("10 A m").unwrap();
        assert_eq!(quantity.value, 10.0);
        assert_eq!(
            quantity.exponents,
            UnitExponents {
                second: 0,
                meter: 1,
                kilogram: 0,
                ampere: 1,
                kelvin: 0,
                mol: 0,
                candela: 0
            }
        )
    }
}

#[test]
fn test_tesla() {
    {
        let quantity = parse_real("2.0 A/m * 3.0 H/m").unwrap();
        assert!((quantity.value - 6.0).abs() <= 1e-8);
        assert_eq!(
            quantity.exponents,
            UnitExponents {
                second: -2,
                meter: 0,
                kilogram: 1,
                ampere: -1,
                kelvin: 0,
                mol: 0,
                candela: 0
            }
        )
    }
    {
        let quantity = parse_real("(2.0 A/m * 3.0 H/m) + 0.5 T").unwrap();
        assert!((quantity.value - 6.5).abs() <= 1e-8);
        assert_eq!(
            quantity.exponents,
            UnitExponents {
                second: -2,
                meter: 0,
                kilogram: 1,
                ampere: -1,
                kelvin: 0,
                mol: 0,
                candela: 0
            }
        )
    }
    {
        let quantity = parse_real("2.0 A/m * 3.0 H/m + 0.5 T").unwrap();
        assert!((quantity.value - 6.5).abs() <= 1e-8);
        assert_eq!(
            quantity.exponents,
            UnitExponents {
                second: -2,
                meter: 0,
                kilogram: 1,
                ampere: -1,
                kelvin: 0,
                mol: 0,
                candela: 0
            }
        )
    }
    {
        let quantity = parse_real("0.5 T + 2.0 A/m * 3.0 H/m").unwrap();
        assert!((quantity.value - 6.5).abs() <= 1e-8);
        assert_eq!(
            quantity.exponents,
            UnitExponents {
                second: -2,
                meter: 0,
                kilogram: 1,
                ampere: -1,
                kelvin: 0,
                mol: 0,
                candela: 0
            }
        )
    }
    {
        let quantity = parse_real("0.5 T + (2.0 A/m * 3.0 H/m)").unwrap();
        assert!((quantity.value - 6.5).abs() <= 1e-8);
        assert_eq!(
            quantity.exponents,
            UnitExponents {
                second: -2,
                meter: 0,
                kilogram: 1,
                ampere: -1,
                kelvin: 0,
                mol: 0,
                candela: 0
            }
        )
    }
}

#[test]
fn test_percentage() {
    {
        let quantity = parse_real("0.4 %").unwrap();
        assert!((quantity.value - 0.004).abs() <= 1e-8);
        assert_eq!(
            quantity.exponents,
            UnitExponents {
                second: 0,
                meter: 0,
                kilogram: 0,
                ampere: 0,
                kelvin: 0,
                mol: 0,
                candela: 0
            }
        )
    }
    {
        let quantity = parse_real("1.0 / (1.0 %)").unwrap();
        assert!((quantity.value - 100.0).abs() <= 1e-8);
        assert_eq!(
            quantity.exponents,
            UnitExponents {
                second: 0,
                meter: 0,
                kilogram: 0,
                ampere: 0,
                kelvin: 0,
                mol: 0,
                candela: 0
            }
        )
    }
    {
        let quantity = parse_real("0.4 % / K").unwrap();
        assert_eq!(quantity.value, 0.004);
        assert_eq!(
            quantity.exponents,
            UnitExponents {
                second: 0,
                meter: 0,
                kilogram: 0,
                ampere: 0,
                kelvin: -1,
                mol: 0,
                candela: 0
            }
        )
    }
}

#[test]
fn test_parse_power_of_ten() {
    {
        let quantity = parse_real("4 pi 1e-7 s").unwrap();
        assert_eq!(quantity.value, 4.0 * PI * 1e-7);
        assert_eq!(
            quantity.exponents,
            UnitExponents {
                second: 1,
                meter: 0,
                kilogram: 0,
                ampere: 0,
                kelvin: 0,
                mol: 0,
                candela: 0
            }
        )
    }
    {
        let quantity = parse_real("3e6 W").unwrap();
        assert_eq!(quantity.value, 3.0 * 1e6);
        assert_eq!(
            quantity.exponents,
            UnitExponents {
                second: -3,
                meter: 2,
                kilogram: 1,
                ampere: 0,
                kelvin: 0,
                mol: 0,
                candela: 0
            }
        )
    }
    {
        let quantity = parse_real("2.7e6 S/m").unwrap();
        assert_eq!(quantity.value, 2.7e6);
        assert_eq!(
            quantity.exponents,
            UnitExponents {
                second: 3,
                meter: -3,
                kilogram: -1,
                ampere: 2,
                kelvin: 0,
                mol: 0,
                candela: 0
            }
        )
    }
    {
        let quantity = parse_real("1/(2.0e6) m").unwrap();
        assert_eq!(quantity.value, 0.5e-6);
        assert_eq!(
            quantity.exponents,
            UnitExponents {
                second: 0,
                meter: 1,
                kilogram: 0,
                ampere: 0,
                kelvin: 0,
                mol: 0,
                candela: 0
            }
        )
    }
}

#[test]
fn test_parse_angle() {
    let quantity = parse_real("180 degree/s").unwrap();
    assert_eq!(quantity.value, PI);
    assert_eq!(
        quantity.exponents,
        UnitExponents {
            second: -1,
            meter: 0,
            kilogram: 0,
            ampere: 0,
            kelvin: 0,
            mol: 0,
            candela: 0
        }
    )
}

#[test]
fn test_parse_complex() {
    {
        let quantity = parse_complex("(1 + 2i) A").unwrap();
        assert_eq!(quantity.value.re, 1.0);
        assert_eq!(quantity.value.im, 2.0);
        assert_eq!(
            quantity.exponents,
            UnitExponents {
                second: 0,
                meter: 0,
                kilogram: 0,
                ampere: 1,
                kelvin: 0,
                mol: 0,
                candela: 0
            }
        )
    }
    {
        let quantity = parse_complex("(1 + 2i) / 1i A").unwrap();
        assert_eq!(quantity.value.re, 2.0);
        assert_eq!(quantity.value.im, -1.0);
        assert_eq!(
            quantity.exponents,
            UnitExponents {
                second: 0,
                meter: 0,
                kilogram: 0,
                ampere: 1,
                kelvin: 0,
                mol: 0,
                candela: 0
            }
        )
    }
    {
        let quantity = parse_complex("pi*1j A").unwrap();
        assert_eq!(quantity.value.re, 0.0);
        assert_eq!(quantity.value.im, PI);
        assert_eq!(
            quantity.exponents,
            UnitExponents {
                second: 0,
                meter: 0,
                kilogram: 0,
                ampere: 1,
                kelvin: 0,
                mol: 0,
                candela: 0
            }
        )
    }
    {
        let quantity = parse_complex("pi i A").unwrap();
        assert_eq!(quantity.value.re, 0.0);
        assert_eq!(quantity.value.im, PI);
        assert_eq!(
            quantity.exponents,
            UnitExponents {
                second: 0,
                meter: 0,
                kilogram: 0,
                ampere: 1,
                kelvin: 0,
                mol: 0,
                candela: 0
            }
        )
    }
    {
        let quantity = parse_complex("pi j A").unwrap();
        assert_eq!(quantity.value.re, 0.0);
        assert_eq!(quantity.value.im, PI);
        assert_eq!(
            quantity.exponents,
            UnitExponents {
                second: 0,
                meter: 0,
                kilogram: 0,
                ampere: 1,
                kelvin: 0,
                mol: 0,
                candela: 0
            }
        )
    }
}

#[test]
fn test_parse_no_value() {
    {
        let quantity = parse_real("A*s").unwrap();
        assert_eq!(quantity.value, 1.0);
        assert_eq!(
            quantity.exponents,
            UnitExponents {
                second: 1,
                meter: 0,
                kilogram: 0,
                ampere: 1,
                kelvin: 0,
                mol: 0,
                candela: 0
            }
        );
    }
    {
        let quantity = parse_real(" A*s").unwrap();
        assert_eq!(quantity.value, 1.0);
        assert_eq!(
            quantity.exponents,
            UnitExponents {
                second: 1,
                meter: 0,
                kilogram: 0,
                ampere: 1,
                kelvin: 0,
                mol: 0,
                candela: 0
            }
        );
    }
}

#[test]
fn parse_success_test_parse_infinite() {
    {
        let quantity = parse_real("inf A").unwrap();
        assert_eq!(quantity.value, INFINITY);
        assert_eq!(
            quantity.exponents,
            UnitExponents {
                second: 0,
                meter: 0,
                kilogram: 0,
                ampere: 1,
                kelvin: 0,
                mol: 0,
                candela: 0
            }
        );
    }
    {
        let quantity = parse_real(".inf A").unwrap();
        assert_eq!(quantity.value, INFINITY);
        assert_eq!(
            quantity.exponents,
            UnitExponents {
                second: 0,
                meter: 0,
                kilogram: 0,
                ampere: 1,
                kelvin: 0,
                mol: 0,
                candela: 0
            }
        );
    }
    {
        let quantity = parse_real("-inf A").unwrap();
        assert_eq!(quantity.value, NEG_INFINITY);
        assert_eq!(
            quantity.exponents,
            UnitExponents {
                second: 0,
                meter: 0,
                kilogram: 0,
                ampere: 1,
                kelvin: 0,
                mol: 0,
                candela: 0
            }
        );
    }
    {
        let quantity = parse_real("-.inf A").unwrap();
        assert_eq!(quantity.value, NEG_INFINITY);
        assert_eq!(
            quantity.exponents,
            UnitExponents {
                second: 0,
                meter: 0,
                kilogram: 0,
                ampere: 1,
                kelvin: 0,
                mol: 0,
                candela: 0
            }
        );
    }
    {
        let quantity = parse_complex("inf j A").unwrap();
        assert_eq!(quantity.value.re, 0.0);
        assert_eq!(quantity.value.im, INFINITY);
        assert_eq!(
            quantity.exponents,
            UnitExponents {
                second: 0,
                meter: 0,
                kilogram: 0,
                ampere: 1,
                kelvin: 0,
                mol: 0,
                candela: 0
            }
        );
    }
    {
        let quantity = parse_real("-.inf / m^2").unwrap();
        assert_eq!(quantity.value, NEG_INFINITY);
        assert_eq!(
            quantity.exponents,
            UnitExponents {
                second: 0,
                meter: -2,
                kilogram: 0,
                ampere: 0,
                kelvin: 0,
                mol: 0,
                candela: 0
            }
        );
    }
    {
        let quantity = parse_real("-.inf A / m").unwrap();
        assert_eq!(quantity.value, NEG_INFINITY);
        assert_eq!(
            quantity.exponents,
            UnitExponents {
                second: 0,
                meter: -1,
                kilogram: 0,
                ampere: 1,
                kelvin: 0,
                mol: 0,
                candela: 0
            }
        );
    }
}
