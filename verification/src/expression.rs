//! Expressions in prefix form: an operator and its two operands, three
//! tokens with whitespace between them.

use crate::error::{CalcError, CalcErrorView};
use crate::operation::Operation;
use crate::text::{
    chars_of, lemma_tight_is_trimmed, lemma_tokens_are_words, lemma_tokens_of_trimmed, slices,
    token_spans, tokens, trimmed,
};
use vstd::prelude::*;

verus! {

/// An expression in prefix form, with its operator resolved and its
/// operands as they were written.
#[derive(Debug, Clone, PartialEq, Eq)]
pub struct Expression {
    pub operation: Operation,
    pub left: String,
    pub right: String,
}

/// An [`Expression`] with its operands as sequences of characters.
pub struct ExpressionView {
    pub operation: Operation,
    pub left: Seq<char>,
    pub right: Seq<char>,
}

impl View for Expression {
    type V = ExpressionView;

    open spec fn view(&self) -> ExpressionView {
        ExpressionView { operation: self.operation, left: self.left@, right: self.right@ }
    }
}

impl ExpressionView {
    /// What `text` is read as. Text of other than three tokens is
    /// malformed. Of three tokens the first is resolved to the operation,
    /// and refused where it names none; the second and third are the
    /// operands, which are not looked into.
    pub open spec fn read(text: Seq<char>) -> Result<ExpressionView, CalcErrorView> {
        let parts = tokens(text);
        if parts.len() != 3 {
            Err(CalcErrorView::MalformedExpression)
        } else {
            match Operation::resolve(parts[0]) {
                Ok(operation) => Ok(ExpressionView { operation, left: parts[1], right: parts[2] }),
                Err(error) => Err(error),
            }
        }
    }
}

/// A result of reading, with the expression or the error taken by its view.
pub open spec fn read_result(result: Result<Expression, CalcError>) -> Result<
    ExpressionView,
    CalcErrorView,
> {
    match result {
        Ok(expression) => Ok(expression@),
        Err(error) => Err(error@),
    }
}

impl Expression {
    /// Reads `text` as an expression in prefix form.
    pub fn parse(text: &str) -> (result: Result<Expression, CalcError>)
        ensures
            read_result(result) == ExpressionView::read(text@),
    {
        let chars = chars_of(text);
        let spans = token_spans(&chars);
        assert(slices(chars@, spans@).len() == spans@.len());
        if spans.len() != 3 {
            return Err(CalcError::MalformedExpression);
        }
        let operator = spans[0];
        let left = spans[1];
        let right = spans[2];
        assert(slices(chars@, spans@)[0] == chars@.subrange(operator.0 as int, operator.1 as int));
        assert(slices(chars@, spans@)[1] == chars@.subrange(left.0 as int, left.1 as int));
        assert(slices(chars@, spans@)[2] == chars@.subrange(right.0 as int, right.1 as int));
        match Operation::from_str(text.substring_char(operator.0, operator.1)) {
            Ok(operation) => Ok(
                Expression {
                    operation,
                    left: text.substring_char(left.0, left.1).to_owned(),
                    right: text.substring_char(right.0, right.1).to_owned(),
                },
            ),
            Err(error) => Err(error),
        }
    }
}

/// Whitespace around an expression does not change what it is read as.
pub proof fn lemma_read_of_trimmed(text: Seq<char>)
    ensures
        ExpressionView::read(trimmed(text)) == ExpressionView::read(text),
{
    lemma_tokens_of_trimmed(text);
}

/// The operator of an expression is resolved as it stands: of three
/// tokens, the first names the operation or the text is refused with it.
pub proof fn lemma_read_by_operator(text: Seq<char>)
    requires
        tokens(text).len() == 3,
    ensures
        ExpressionView::read(text) == (match Operation::named(tokens(text)[0]) {
            Some(operation) => Ok::<ExpressionView, CalcErrorView>(
                ExpressionView { operation, left: tokens(text)[1], right: tokens(text)[2] },
            ),
            None => Err(CalcErrorView::UnknownOperation(tokens(text)[0])),
        }),
{
    lemma_tokens_are_words(text, 0);
    lemma_tight_is_trimmed(tokens(text)[0]);
}

} // verus!
