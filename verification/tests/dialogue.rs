use calculator::dialogue::{error_line, memory_line, result_line, Prompt};
use calculator::error::CalcError;

#[test]
fn prompts_have_their_texts() {
    assert_eq!(Prompt::Mode.as_str(), "Choose mode (1 - normal, 2 - Polish notation): ");
    assert_eq!(
        Prompt::Expression.as_str(),
        "Enter expression in Polish notation (<operation> <number1> <number2>): "
    );
    assert_eq!(
        Prompt::FirstOperand.as_str(),
        "Enter first number (or 'm' to use memory result): "
    );
    assert_eq!(Prompt::Operator.as_str(), "Enter operation (+, -, *, /): ");
    assert_eq!(Prompt::SecondOperand.as_str(), "Enter second number: ");
    assert_eq!(Prompt::Continue.as_str(), "Do you want to continue? (yes/no): ");
}

#[test]
fn memory_line_shows_the_value() {
    assert_eq!(memory_line("0"), "Current result: 0");
    assert_eq!(memory_line(&format!("{}", 8.0_f64)), "Current result: 8");
    assert_eq!(memory_line(&format!("{}", -2.5_f64)), "Current result: -2.5");
}

#[test]
fn result_line_shows_the_value() {
    assert_eq!(result_line("20"), "Result: 20");
    assert_eq!(result_line(&format!("{}", 20.0_f64)), "Result: 20");
    assert_eq!(result_line(&format!("{}", 0.1_f64 + 0.2_f64)), "Result: 0.30000000000000004");
    assert_eq!(result_line(&format!("{}", f64::INFINITY)), "Result: inf");
    assert_eq!(result_line(""), "Result: ");
}

#[test]
fn error_line_shows_the_message() {
    assert_eq!(error_line(&CalcError::DivisionByZero), "Error: Division by zero!");
    assert_eq!(
        error_line(&CalcError::UnknownOperation("%".to_string())),
        "Error: Unknown operation: %"
    );
    assert_eq!(
        error_line(&CalcError::InvalidNumber("abc".to_string())),
        "Error: Invalid number format: abc"
    );
    assert_eq!(
        error_line(&CalcError::MalformedExpression),
        "Error: Invalid expression format: expects exactly operator, operand1, operand2"
    );
}
