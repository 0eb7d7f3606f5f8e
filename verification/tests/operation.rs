use calculator::error::CalcError;
use calculator::number::Number;
use calculator::operation::Operation;

fn number(value: f64) -> Number {
    Number::from_bits(value.to_bits())
}

#[test]
fn from_str_resolves_the_four_symbols() {
    assert_eq!(Operation::from_str("+"), Ok(Operation::Add));
    assert_eq!(Operation::from_str("-"), Ok(Operation::Subtract));
    assert_eq!(Operation::from_str("*"), Ok(Operation::Multiply));
    assert_eq!(Operation::from_str("/"), Ok(Operation::Divide));
}

#[test]
fn from_str_trims_its_input() {
    assert_eq!(Operation::from_str(" + "), Ok(Operation::Add));
    assert_eq!(Operation::from_str("\t-\n"), Ok(Operation::Subtract));
    assert_eq!(Operation::from_str("*\r\n"), Ok(Operation::Multiply));
    assert_eq!(Operation::from_str("\u{a0}/\u{3000}"), Ok(Operation::Divide));
}

#[test]
fn from_str_refuses_any_other_text() {
    for input in ["", " ", "\t\n", "x", "++", "+ +", "plus", "+1", "1+", "÷", "＋", "%", "^", "m"] {
        assert_eq!(
            Operation::from_str(input),
            Err(CalcError::UnknownOperation(input.to_string())),
            "{:?}",
            input
        );
    }
}

#[test]
fn from_str_error_holds_the_input_as_given() {
    assert_eq!(
        Operation::from_str("  pow  "),
        Err(CalcError::UnknownOperation("  pow  ".to_string()))
    );
}

#[test]
fn check_refuses_division_by_zero() {
    for left in [0.0, 1.0, -1.0, 2.5, f64::MAX, f64::INFINITY, f64::NAN] {
        let _ = number(left);
        assert_eq!(Operation::Divide.check(number(0.0)), Err(CalcError::DivisionByZero));
        assert_eq!(Operation::Divide.check(number(-0.0)), Err(CalcError::DivisionByZero));
    }
}

#[test]
fn check_accepts_division_by_what_is_not_zero() {
    for right in [
        1.0,
        -1.0,
        0.5,
        f64::MIN_POSITIVE,
        -f64::MIN_POSITIVE,
        5e-324,
        -5e-324,
        f64::MAX,
        f64::INFINITY,
        f64::NEG_INFINITY,
        f64::NAN,
    ] {
        assert_eq!(Operation::Divide.check(number(right)), Ok(()), "{}", right);
    }
}

#[test]
fn check_accepts_the_other_operations_on_zero() {
    for operation in [Operation::Add, Operation::Subtract, Operation::Multiply] {
        assert_eq!(operation.check(number(0.0)), Ok(()));
        assert_eq!(operation.check(number(-0.0)), Ok(()));
        assert_eq!(operation.check(number(3.0)), Ok(()));
    }
}

#[test]
fn is_zero_is_the_comparison_with_zero() {
    for value in [
        0.0,
        -0.0,
        1.0,
        -1.0,
        5e-324,
        -5e-324,
        f64::MIN_POSITIVE,
        f64::MAX,
        f64::MIN,
        f64::INFINITY,
        f64::NEG_INFINITY,
        f64::NAN,
        f64::EPSILON,
    ] {
        assert_eq!(number(value).is_zero(), value == 0.0, "{}", value);
    }
}

#[test]
fn number_keeps_its_bits() {
    for bits in [0u64, 1, 0x8000_0000_0000_0000, 0x4034_0000_0000_0000, u64::MAX] {
        assert_eq!(Number::from_bits(bits).to_bits(), bits);
        assert_eq!(Number::from_bits(bits).bits, bits);
    }
    assert_eq!(number(20.0).to_bits(), 0x4034_0000_0000_0000);
    assert_eq!(f64::from_bits(number(-2.5).to_bits()), -2.5);
}

#[test]
fn messages_name_the_error() {
    assert_eq!(
        CalcError::UnknownOperation("pow".to_string()).message(),
        "Unknown operation: pow"
    );
    assert_eq!(
        CalcError::InvalidNumber("1,5".to_string()).message(),
        "Invalid number format: 1,5"
    );
    assert_eq!(CalcError::DivisionByZero.message(), "Division by zero!");
    assert_eq!(
        CalcError::MalformedExpression.message(),
        "Invalid expression format: expects exactly operator, operand1, operand2"
    );
}

#[test]
fn messages_hold_the_text_as_given() {
    assert_eq!(CalcError::UnknownOperation(String::new()).message(), "Unknown operation: ");
    assert_eq!(CalcError::InvalidNumber(" ž ".to_string()).message(), "Invalid number format:  ž ");
}

#[test]
fn from_parsed_gives_the_number_or_the_error_with_the_text() {
    assert_eq!(Number::from_parsed(Some(number(1.5)), "1.5"), Ok(number(1.5)));
    assert_eq!(Number::from_parsed(Some(number(0.0)), "zero"), Ok(number(0.0)));
    assert_eq!(
        Number::from_parsed(None, "1,5"),
        Err(CalcError::InvalidNumber("1,5".to_string()))
    );
    assert_eq!(Number::from_parsed(None, ""), Err(CalcError::InvalidNumber(String::new())));
}
