//! The four operations: how a token names one, and on which operands one
//! is defined.

use crate::error::{outcome, CalcError, CalcErrorView};
use crate::number::Number;
use crate::text::{blank, lemma_trimmed_of_blank, trim, trimmed};
use vstd::prelude::*;

verus! {

/// An arithmetic operation on two numbers.
#[derive(Clone, Copy, Debug, PartialEq, Eq, Structural)]
pub enum Operation {
    Add,
    Subtract,
    Multiply,
    Divide,
}

impl Operation {
    /// The character that names the operation.
    pub open spec fn symbol(self) -> char {
        match self {
            Operation::Add => '+',
            Operation::Subtract => '-',
            Operation::Multiply => '*',
            Operation::Divide => '/',
        }
    }

    /// The operation that `token` names, if it names one: the token is
    /// the operation's symbol and nothing else.
    pub open spec fn named(token: Seq<char>) -> Option<Operation> {
        if token == seq!['+'] {
            Some(Operation::Add)
        } else if token == seq!['-'] {
            Some(Operation::Subtract)
        } else if token == seq!['*'] {
            Some(Operation::Multiply)
        } else if token == seq!['/'] {
            Some(Operation::Divide)
        } else {
            None
        }
    }

    /// What `input` resolves to: the operation that it names once trimmed,
    /// or else the error that holds `input` as it was given.
    pub open spec fn resolve(input: Seq<char>) -> Result<Operation, CalcErrorView> {
        match Operation::named(trimmed(input)) {
            Some(operation) => Ok(operation),
            None => Err(CalcErrorView::UnknownOperation(input)),
        }
    }

    /// Resolves `input`, with whitespace around it or not, to an operation.
    pub fn from_str(input: &str) -> (result: Result<Operation, CalcError>)
        ensures
            outcome(result) == Operation::resolve(input@),
    {
        let token = trim(input);
        if token.unicode_len() == 1 {
            let c = token.get_char(0);
            assert(token@ =~= seq![c]);
            match c {
                '+' => {
                    return Ok(Operation::Add);
                },
                '-' => {
                    return Ok(Operation::Subtract);
                },
                '*' => {
                    return Ok(Operation::Multiply);
                },
                '/' => {
                    return Ok(Operation::Divide);
                },
                _ => {},
            }
        }
        Err(CalcError::UnknownOperation(input.to_owned()))
    }

    /// Whether the operation has a result with `right` as its second
    /// operand: all but a division by zero have one.
    pub open spec fn defined_on(self, right: Number) -> bool {
        self != Operation::Divide || !right.is_zero()
    }

    /// Accepts the operation on `right` as its second operand, or refuses
    /// a division by zero. The first operand has no part in it.
    pub fn check(self, right: Number) -> (result: Result<(), CalcError>)
        ensures
            result is Ok <==> self.defined_on(right),
            result matches Err(error) ==> error@ == CalcErrorView::DivisionByZero,
    {
        match self {
            Operation::Divide => {
                if right.is_zero() {
                    Err(CalcError::DivisionByZero)
                } else {
                    Ok(())
                }
            },
            _ => Ok(()),
        }
    }
}

/// A token names an operation exactly where it is that operation's symbol.
pub proof fn lemma_named_by_symbol(token: Seq<char>, operation: Operation)
    ensures
        Operation::named(token) == Some(operation) <==> token == seq![operation.symbol()],
{
    if token == seq![operation.symbol()] {
        assert(token[0] == operation.symbol());
    }
    if Operation::named(token) == Some(operation) {
        assert(token.len() == 1);
        assert(token =~= seq![token[0]]);
    }
}

/// Input resolves to an operation exactly where, once trimmed, it is that
/// operation's symbol; it is refused exactly where it is no operation's.
pub proof fn lemma_resolves_by_symbol(input: Seq<char>)
    ensures
        forall|operation: Operation|
            #![trigger operation.symbol()]
            Operation::resolve(input) == Ok::<Operation, CalcErrorView>(operation)
                <==> trimmed(input) == seq![operation.symbol()],
        Operation::resolve(input) is Err <==> forall|operation: Operation|
            #![trigger operation.symbol()]
            trimmed(input) != seq![operation.symbol()],
        Operation::resolve(input) matches Err(error) ==> error
            == CalcErrorView::UnknownOperation(input),
{
    assert forall|operation: Operation|
        #![trigger operation.symbol()]
        Operation::resolve(input) == Ok::<Operation, CalcErrorView>(operation)
            <==> trimmed(input) == seq![operation.symbol()] by {
        lemma_named_by_symbol(trimmed(input), operation);
    }
    if let Some(operation) = Operation::named(trimmed(input)) {
        lemma_named_by_symbol(trimmed(input), operation);
    }
}

/// Each of the four symbols, standing alone, resolves to its operation.
pub proof fn lemma_symbol_resolves(operation: Operation)
    ensures
        Operation::resolve(seq![operation.symbol()]) == Ok::<Operation, CalcErrorView>(operation),
{
    let token = seq![operation.symbol()];
    assert(token.first() == operation.symbol());
    assert(token.last() == operation.symbol());
    assert(trimmed(token) == token);
    lemma_named_by_symbol(token, operation);
}

/// Blank input, the empty one too, resolves to no operation.
pub proof fn lemma_blank_is_unknown(input: Seq<char>)
    requires
        blank(input),
    ensures
        Operation::resolve(input) == Err::<Operation, CalcErrorView>(
            CalcErrorView::UnknownOperation(input),
        ),
{
    lemma_trimmed_of_blank(input);
}

} // verus!
