//! The two ways through a calculation, each stated as a whole: what an
//! expression in prefix form comes to, what three lines of input come to,
//! and that the session, fed step by step, arrives at just that.
//!
//! What parsing a text as a number gives is not decided here. It enters as
//! a value: the number, or `None` where the text denotes none.

use crate::error::CalcErrorView;
use crate::expression::ExpressionView;
use crate::number::Number;
use crate::operation::Operation;
use crate::session::{PhaseView, SessionView};
use crate::text::trimmed;
use vstd::prelude::*;

verus! {

/// A calculation that is ready to be carried out.
pub struct Calculation {
    pub operation: Operation,
    pub left: Number,
    pub right: Number,
}

/// What an expression in prefix form comes to, where parsing its operands
/// gives `left` and `right`. The first thing amiss decides: the form and
/// the operator, then the first operand, then the second, then a zero
/// divisor.
pub open spec fn prefix_outcome(
    text: Seq<char>,
    left: Option<Number>,
    right: Option<Number>,
) -> Result<Calculation, CalcErrorView> {
    match ExpressionView::read(text) {
        Err(error) => Err(error),
        Ok(expression) => match (left, right) {
            (None, _) => Err(CalcErrorView::InvalidNumber(expression.left)),
            (Some(_), None) => Err(CalcErrorView::InvalidNumber(expression.right)),
            (Some(left), Some(right)) => if expression.operation.defined_on(right) {
                Ok(Calculation { operation: expression.operation, left, right })
            } else {
                Err(CalcErrorView::DivisionByZero)
            },
        },
    }
}

/// What three lines come to, the first operand, the operator and the
/// second operand, where parsing the operands gives `left` and `right`
/// and `memory` holds the last result. The word `m` for the first operand
/// stands for the memory and is not parsed. The first thing amiss decides:
/// the first operand, then the operator, then the second operand, then a
/// zero divisor.
pub open spec fn infix_outcome(
    memory: Number,
    first: Seq<char>,
    left: Option<Number>,
    operator: Seq<char>,
    second: Seq<char>,
    right: Option<Number>,
) -> Result<Calculation, CalcErrorView> {
    let left = if trimmed(first) == "m"@ {
        Some(memory)
    } else {
        left
    };
    match (left, Operation::resolve(trimmed(operator)), right) {
        (None, _, _) => Err(CalcErrorView::InvalidNumber(trimmed(first))),
        (Some(_), Err(error), _) => Err(error),
        (Some(_), Ok(_), None) => Err(CalcErrorView::InvalidNumber(trimmed(second))),
        (Some(left), Ok(operation), Some(right)) => if operation.defined_on(right) {
            Ok(Calculation { operation, left, right })
        } else {
            Err(CalcErrorView::DivisionByZero)
        },
    }
}

/// The session after it was fed an expression in prefix form and what
/// parsing its operands gave, up to the first error that it reports.
pub open spec fn run_prefix(
    session: SessionView,
    text: Seq<char>,
    left: Option<Number>,
    right: Option<Number>,
) -> (SessionView, Option<CalcErrorView>) {
    let read = session.on_line(text);
    if read.1 is Some {
        read
    } else {
        let first = read.0.on_parsed(left);
        if first.1 is Some {
            first
        } else {
            first.0.on_parsed(right)
        }
    }
}

/// The session after it was fed three lines and what parsing the operands
/// gave, up to the first error that it reports. Where the first line is
/// the word for the memory, nothing is parsed for it.
pub open spec fn run_infix(
    session: SessionView,
    first: Seq<char>,
    left: Option<Number>,
    operator: Seq<char>,
    second: Seq<char>,
    right: Option<Number>,
) -> (SessionView, Option<CalcErrorView>) {
    let taken = session.on_line(first);
    let parsed = if taken.0.phase is InfixLeft {
        taken.0.on_parsed(left)
    } else {
        taken
    };
    if parsed.1 is Some {
        parsed
    } else {
        let resolved = parsed.0.on_line(operator);
        if resolved.1 is Some {
            resolved
        } else {
            resolved.0.on_line(second).0.on_parsed(right)
        }
    }
}

/// Fed an expression in prefix form, the session comes to wait for the
/// very calculation that the expression comes to, and reports nothing; or
/// it reports the very error, and asks for the mode again. The memory is
/// as it was.
pub proof fn lemma_prefix_flow(
    session: SessionView,
    text: Seq<char>,
    left: Option<Number>,
    right: Option<Number>,
)
    requires
        session.phase is AwaitExpression,
    ensures
        run_prefix(session, text, left, right) == (match prefix_outcome(text, left, right) {
            Ok(calculation) => (
                session.at(
                    PhaseView::Computing {
                        operation: calculation.operation,
                        left: calculation.left,
                        right: calculation.right,
                    },
                ),
                None::<CalcErrorView>,
            ),
            Err(error) => (session.at(PhaseView::AwaitMode), Some(error)),
        }),
{
}

/// Fed three lines, the session comes to wait for the very calculation
/// that they come to, and reports nothing; or it reports the very error.
/// After a division by zero it asks whether to continue, after any other
/// error it asks for the mode again. The memory is as it was.
pub proof fn lemma_infix_flow(
    session: SessionView,
    first: Seq<char>,
    left: Option<Number>,
    operator: Seq<char>,
    second: Seq<char>,
    right: Option<Number>,
)
    requires
        session.phase is AwaitFirstOperand,
    ensures
        run_infix(session, first, left, operator, second, right) == (match infix_outcome(
            session.memory,
            first,
            left,
            operator,
            second,
            right,
        ) {
            Ok(calculation) => (
                session.at(
                    PhaseView::Computing {
                        operation: calculation.operation,
                        left: calculation.left,
                        right: calculation.right,
                    },
                ),
                None::<CalcErrorView>,
            ),
            Err(CalcErrorView::DivisionByZero) => (
                session.at(PhaseView::AwaitContinue),
                Some(CalcErrorView::DivisionByZero),
            ),
            Err(error) => (session.at(PhaseView::AwaitMode), Some(error)),
        }),
{
}

/// When the result of a calculation comes in, it becomes the memory, it is
/// the result reported, and the session asks whether to continue.
pub proof fn lemma_result_is_kept(session: SessionView, value: Number)
    requires
        session.phase is Computing,
    ensures
        session.on_computed(value) == (
            SessionView { memory: value, phase: PhaseView::AwaitContinue },
            Some(value),
        ),
{
}

} // verus!
