//! The errors of the calculator and the messages that report them.

use vstd::prelude::*;

verus! {

/// Why a calculation could not be carried out.
#[derive(Debug, Clone, PartialEq, Eq)]
pub enum CalcError {
    /// The operator is none of `+`, `-`, `*`, `/`; holds the text given.
    UnknownOperation(String),
    /// The operand is no decimal number; holds the text given.
    InvalidNumber(String),
    /// The divisor is zero.
    DivisionByZero,
    /// The expression does not consist of exactly three tokens.
    MalformedExpression,
}

/// A [`CalcError`] with its text as a sequence of characters.
pub enum CalcErrorView {
    UnknownOperation(Seq<char>),
    InvalidNumber(Seq<char>),
    DivisionByZero,
    MalformedExpression,
}

impl View for CalcError {
    type V = CalcErrorView;

    open spec fn view(&self) -> CalcErrorView {
        match self {
            CalcError::UnknownOperation(token) => CalcErrorView::UnknownOperation(token@),
            CalcError::InvalidNumber(token) => CalcErrorView::InvalidNumber(token@),
            CalcError::DivisionByZero => CalcErrorView::DivisionByZero,
            CalcError::MalformedExpression => CalcErrorView::MalformedExpression,
        }
    }
}

impl CalcErrorView {
    /// The message that reports the error.
    pub open spec fn message(self) -> Seq<char> {
        match self {
            CalcErrorView::UnknownOperation(token) => "Unknown operation: "@ + token,
            CalcErrorView::InvalidNumber(token) => "Invalid number format: "@ + token,
            CalcErrorView::DivisionByZero => "Division by zero!"@,
            CalcErrorView::MalformedExpression =>
                "Invalid expression format: expects exactly operator, operand1, operand2"@,
        }
    }
}

impl CalcError {
    /// The message that reports the error.
    pub fn message(&self) -> (text: String)
        ensures
            text@ == self@.message(),
    {
        match self {
            CalcError::UnknownOperation(token) => {
                let mut text = "Unknown operation: ".to_owned();
                text.append(token.as_str());
                text
            },
            CalcError::InvalidNumber(token) => {
                let mut text = "Invalid number format: ".to_owned();
                text.append(token.as_str());
                text
            },
            CalcError::DivisionByZero => "Division by zero!".to_owned(),
            CalcError::MalformedExpression => {
                "Invalid expression format: expects exactly operator, operand1, operand2"
                    .to_owned()
            },
        }
    }
}

/// A result with its error, if any, taken by its view.
pub open spec fn outcome<T>(result: Result<T, CalcError>) -> Result<T, CalcErrorView> {
    match result {
        Ok(value) => Ok(value),
        Err(error) => Err(error@),
    }
}

/// A report with its error, if any, taken by its view.
pub open spec fn reported(report: Option<CalcError>) -> Option<CalcErrorView> {
    match report {
        Some(error) => Some(error@),
        None => None,
    }
}

} // verus!
