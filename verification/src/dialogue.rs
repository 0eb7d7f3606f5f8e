//! The words of the dialogue: the prompts, and the lines that report a
//! result, the memory or an error.

use crate::error::CalcError;
use crate::text::{lowercase, same, to_lowercase, trim, trimmed};
use vstd::prelude::*;

verus! {

/// A question put to the user.
#[derive(Clone, Copy, Debug, PartialEq, Eq, Structural)]
pub enum Prompt {
    /// Which mode: a calculation prompt by prompt, or an expression in
    /// prefix form.
    Mode,
    /// The expression in prefix form.
    Expression,
    /// The first operand, or the word for the memory.
    FirstOperand,
    /// The operator.
    Operator,
    /// The second operand.
    SecondOperand,
    /// Whether to go on.
    Continue,
}

impl Prompt {
    /// The text of the prompt.
    pub open spec fn text(self) -> Seq<char> {
        match self {
            Prompt::Mode => "Choose mode (1 - normal, 2 - Polish notation): "@,
            Prompt::Expression =>
                "Enter expression in Polish notation (<operation> <number1> <number2>): "@,
            Prompt::FirstOperand => "Enter first number (or 'm' to use memory result): "@,
            Prompt::Operator => "Enter operation (+, -, *, /): "@,
            Prompt::SecondOperand => "Enter second number: "@,
            Prompt::Continue => "Do you want to continue? (yes/no): "@,
        }
    }

    /// The text of the prompt.
    pub fn as_str(self) -> (text: &'static str)
        ensures
            text@ == self.text(),
    {
        match self {
            Prompt::Mode => "Choose mode (1 - normal, 2 - Polish notation): ",
            Prompt::Expression =>
                "Enter expression in Polish notation (<operation> <number1> <number2>): ",
            Prompt::FirstOperand => "Enter first number (or 'm' to use memory result): ",
            Prompt::Operator => "Enter operation (+, -, *, /): ",
            Prompt::SecondOperand => "Enter second number: ",
            Prompt::Continue => "Do you want to continue? (yes/no): ",
        }
    }
}

/// The line that shows the memory, with `value` the memory written out.
pub fn memory_line(value: &str) -> (line: String)
    ensures
        line@ == "Current result: "@ + value@,
{
    let mut line = "Current result: ".to_owned();
    line.append(value);
    line
}

/// The line that reports a result, with `value` the result written out.
pub fn result_line(value: &str) -> (line: String)
    ensures
        line@ == "Result: "@ + value@,
{
    let mut line = "Result: ".to_owned();
    line.append(value);
    line
}

/// The line that reports an error.
pub fn error_line(error: &CalcError) -> (line: String)
    ensures
        line@ == "Error: "@ + error@.message(),
{
    let mut line = "Error: ".to_owned();
    let message = error.message();
    line.append(message.as_str());
    line
}

/// Whether `answer` declines to go on: trimmed and in lower case, it is
/// the word "no".
pub open spec fn declines(answer: Seq<char>) -> bool {
    lowercase(trimmed(answer)) == "no"@
}

/// Tells whether `lowered`, an answer trimmed and in lower case, is the
/// word "no".
pub fn is_no(lowered: &str) -> (no: bool)
    ensures
        no == (lowered@ == "no"@),
{
    same(lowered, "no")
}

/// Tells whether `answer` declines to go on.
pub fn is_declined(answer: &str) -> (declined: bool)
    ensures
        declined == declines(answer@),
{
    let lowered = to_lowercase(trim(answer));
    is_no(lowered.as_str())
}

} // verus!
