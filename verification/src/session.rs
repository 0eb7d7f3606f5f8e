//! The session of the calculator: a state machine that is fed the lines
//! read, the numbers parsed and the results computed, and that says at
//! each step what it waits for next. It reads nothing, prints nothing and
//! does no arithmetic itself.

use crate::dialogue::{declines, is_declined, Prompt};
use crate::error::{reported, CalcError, CalcErrorView};
use crate::expression::{Expression, ExpressionView};
use crate::number::Number;
use crate::operation::Operation;
use crate::text::{
    lemma_tight_is_trimmed, lemma_tokens_are_words, lemma_trimmed_is_tight, same, tight, tokens,
    trim, trimmed,
};
use vstd::prelude::*;

verus! {

/// What the session waits for.
#[derive(Debug, Clone, PartialEq, Eq)]
pub enum Request {
    /// A line of input, read after the prompt was shown. Where a memory is
    /// given, it is shown before the prompt.
    Line { memory: Option<Number>, prompt: Prompt },
    /// The number that the text denotes, or the news that it denotes none.
    Parse(String),
    /// The result of the operation on the two numbers.
    Compute { operation: Operation, left: Number, right: Number },
    /// Nothing: the session is over.
    Exit,
}

/// A [`Request`] with its text as a sequence of characters.
pub enum RequestView {
    Line { memory: Option<Number>, prompt: Prompt },
    Parse(Seq<char>),
    Compute { operation: Operation, left: Number, right: Number },
    Exit,
}

impl View for Request {
    type V = RequestView;

    open spec fn view(&self) -> RequestView {
        match self {
            Request::Line { memory, prompt } => RequestView::Line {
                memory: *memory,
                prompt: *prompt,
            },
            Request::Parse(token) => RequestView::Parse(token@),
            Request::Compute { operation, left, right } => RequestView::Compute {
                operation: *operation,
                left: *left,
                right: *right,
            },
            Request::Exit => RequestView::Exit,
        }
    }
}

/// Where a session stands.
pub enum PhaseView {
    /// Waits for the line that selects the mode.
    AwaitMode,
    /// Waits for the line that holds an expression in prefix form.
    AwaitExpression,
    /// Waits for the line that holds the first operand.
    AwaitFirstOperand,
    /// Waits for the line that holds the operator.
    AwaitOperator { left: Number },
    /// Waits for the line that holds the second operand.
    AwaitSecondOperand { left: Number, operation: Operation },
    /// Waits for the line that says whether to go on.
    AwaitContinue,
    /// Waits for the first operand of an expression to be parsed.
    PrefixLeft { operation: Operation, token: Seq<char>, next: Seq<char> },
    /// Waits for the second operand of an expression to be parsed.
    PrefixRight { operation: Operation, left: Number, token: Seq<char> },
    /// Waits for the first operand, given on a line of its own, to be parsed.
    InfixLeft { token: Seq<char> },
    /// Waits for the second operand, given on a line of its own, to be parsed.
    InfixRight { left: Number, operation: Operation, token: Seq<char> },
    /// Waits for the result of the operation.
    Computing { operation: Operation, left: Number, right: Number },
    /// Over.
    Terminated,
}

/// A session as its memory and its phase.
pub struct SessionView {
    pub memory: Number,
    pub phase: PhaseView,
}

impl SessionView {
    /// The session before any input: the memory is positive zero, and the
    /// mode is asked for.
    pub open spec fn start() -> SessionView {
        SessionView { memory: Number { bits: 0 }, phase: PhaseView::AwaitMode }
    }

    /// What holds of the session at the start and after every step: text
    /// that waits to be parsed has no whitespace around it, and the
    /// operation that waits to be computed is defined on its operands.
    pub open spec fn wf(self) -> bool {
        match self.phase {
            PhaseView::PrefixLeft { token, next, .. } => tight(token) && tight(next),
            PhaseView::PrefixRight { token, .. } => tight(token),
            PhaseView::InfixLeft { token } => tight(token),
            PhaseView::InfixRight { token, .. } => tight(token),
            PhaseView::Computing { operation, right, .. } => operation.defined_on(right),
            _ => true,
        }
    }

    /// The session in another phase, with the same memory.
    pub open spec fn at(self, phase: PhaseView) -> SessionView {
        SessionView { memory: self.memory, phase }
    }

    /// What the session waits for. With the prompt for the mode, and with
    /// no other, goes the memory to show.
    pub open spec fn request(self) -> RequestView {
        match self.phase {
            PhaseView::AwaitMode => RequestView::Line {
                memory: Some(self.memory),
                prompt: Prompt::Mode,
            },
            PhaseView::AwaitExpression => RequestView::Line {
                memory: None,
                prompt: Prompt::Expression,
            },
            PhaseView::AwaitFirstOperand => RequestView::Line {
                memory: None,
                prompt: Prompt::FirstOperand,
            },
            PhaseView::AwaitOperator { .. } => RequestView::Line {
                memory: None,
                prompt: Prompt::Operator,
            },
            PhaseView::AwaitSecondOperand { .. } => RequestView::Line {
                memory: None,
                prompt: Prompt::SecondOperand,
            },
            PhaseView::AwaitContinue => RequestView::Line {
                memory: None,
                prompt: Prompt::Continue,
            },
            PhaseView::PrefixLeft { token, .. } => RequestView::Parse(token),
            PhaseView::PrefixRight { token, .. } => RequestView::Parse(token),
            PhaseView::InfixLeft { token } => RequestView::Parse(token),
            PhaseView::InfixRight { token, .. } => RequestView::Parse(token),
            PhaseView::Computing { operation, left, right } => RequestView::Compute {
                operation,
                left,
                right,
            },
            PhaseView::Terminated => RequestView::Exit,
        }
    }

    /// The session after a line was read, and the error to report, if any.
    /// Where the session waits for no line, the line is ignored.
    pub open spec fn on_line(self, line: Seq<char>) -> (SessionView, Option<CalcErrorView>) {
        match self.phase {
            PhaseView::AwaitMode => if trimmed(line) == "2"@ {
                (self.at(PhaseView::AwaitExpression), None)
            } else {
                (self.at(PhaseView::AwaitFirstOperand), None)
            },
            PhaseView::AwaitExpression => match ExpressionView::read(line) {
                Ok(expression) => (
                    self.at(
                        PhaseView::PrefixLeft {
                            operation: expression.operation,
                            token: expression.left,
                            next: expression.right,
                        },
                    ),
                    None,
                ),
                Err(error) => (self.at(PhaseView::AwaitMode), Some(error)),
            },
            PhaseView::AwaitFirstOperand => if trimmed(line) == "m"@ {
                (self.at(PhaseView::AwaitOperator { left: self.memory }), None)
            } else {
                (self.at(PhaseView::InfixLeft { token: trimmed(line) }), None)
            },
            PhaseView::AwaitOperator { left } => match Operation::resolve(trimmed(line)) {
                Ok(operation) => (self.at(PhaseView::AwaitSecondOperand { left, operation }), None),
                Err(error) => (self.at(PhaseView::AwaitMode), Some(error)),
            },
            PhaseView::AwaitSecondOperand { left, operation } => (
                self.at(PhaseView::InfixRight { left, operation, token: trimmed(line) }),
                None,
            ),
            PhaseView::AwaitContinue => if declines(line) {
                (self.at(PhaseView::Terminated), None)
            } else {
                (self.at(PhaseView::AwaitMode), None)
            },
            _ => (self, None),
        }
    }

    /// The session after the text that it asked about was parsed, with
    /// `parsed` the number found or `None` where the text denotes none, and
    /// the error to report, if any. Where the session waits for no number,
    /// `parsed` is ignored.
    pub open spec fn on_parsed(self, parsed: Option<Number>) -> (
        SessionView,
        Option<CalcErrorView>,
    ) {
        match self.phase {
            PhaseView::PrefixLeft { operation, token, next } => match Number::parsed(
                parsed,
                token,
            ) {
                Ok(left) => (
                    self.at(PhaseView::PrefixRight { operation, left, token: next }),
                    None,
                ),
                Err(error) => (self.at(PhaseView::AwaitMode), Some(error)),
            },
            PhaseView::PrefixRight { operation, left, token } => match Number::parsed(
                parsed,
                token,
            ) {
                Ok(right) => if operation.defined_on(right) {
                    (self.at(PhaseView::Computing { operation, left, right }), None)
                } else {
                    (self.at(PhaseView::AwaitMode), Some(CalcErrorView::DivisionByZero))
                },
                Err(error) => (self.at(PhaseView::AwaitMode), Some(error)),
            },
            PhaseView::InfixLeft { token } => match Number::parsed(parsed, token) {
                Ok(left) => (self.at(PhaseView::AwaitOperator { left }), None),
                Err(error) => (self.at(PhaseView::AwaitMode), Some(error)),
            },
            PhaseView::InfixRight { left, operation, token } => match Number::parsed(
                parsed,
                token,
            ) {
                Ok(right) => if operation.defined_on(right) {
                    (self.at(PhaseView::Computing { operation, left, right }), None)
                } else {
                    (self.at(PhaseView::AwaitContinue), Some(CalcErrorView::DivisionByZero))
                },
                Err(error) => (self.at(PhaseView::AwaitMode), Some(error)),
            },
            _ => (self, None),
        }
    }

    /// The session after the operation that it asked for was computed,
    /// and the result to report, if any: the result becomes the memory.
    /// Where the session waits for no result, `value` is ignored.
    pub open spec fn on_computed(self, value: Number) -> (SessionView, Option<Number>) {
        match self.phase {
            PhaseView::Computing { .. } => (
                SessionView { memory: value, phase: PhaseView::AwaitContinue },
                Some(value),
            ),
            _ => (self, None),
        }
    }
}

/// Where a session stands, with the text it holds.
#[derive(Debug)]
enum Phase {
    AwaitMode,
    AwaitExpression,
    AwaitFirstOperand,
    AwaitOperator { left: Number },
    AwaitSecondOperand { left: Number, operation: Operation },
    AwaitContinue,
    PrefixLeft { operation: Operation, token: String, next: String },
    PrefixRight { operation: Operation, left: Number, token: String },
    InfixLeft { token: String },
    InfixRight { left: Number, operation: Operation, token: String },
    Computing { operation: Operation, left: Number, right: Number },
    Terminated,
}

impl View for Phase {
    type V = PhaseView;

    closed spec fn view(&self) -> PhaseView {
        match self {
            Phase::AwaitMode => PhaseView::AwaitMode,
            Phase::AwaitExpression => PhaseView::AwaitExpression,
            Phase::AwaitFirstOperand => PhaseView::AwaitFirstOperand,
            Phase::AwaitOperator { left } => PhaseView::AwaitOperator { left: *left },
            Phase::AwaitSecondOperand { left, operation } => PhaseView::AwaitSecondOperand {
                left: *left,
                operation: *operation,
            },
            Phase::AwaitContinue => PhaseView::AwaitContinue,
            Phase::PrefixLeft { operation, token, next } => PhaseView::PrefixLeft {
                operation: *operation,
                token: token@,
                next: next@,
            },
            Phase::PrefixRight { operation, left, token } => PhaseView::PrefixRight {
                operation: *operation,
                left: *left,
                token: token@,
            },
            Phase::InfixLeft { token } => PhaseView::InfixLeft { token: token@ },
            Phase::InfixRight { left, operation, token } => PhaseView::InfixRight {
                left: *left,
                operation: *operation,
                token: token@,
            },
            Phase::Computing { operation, left, right } => PhaseView::Computing {
                operation: *operation,
                left: *left,
                right: *right,
            },
            Phase::Terminated => PhaseView::Terminated,
        }
    }
}

/// A session of the calculator: the memory, and where the dialogue stands.
#[derive(Debug)]
pub struct Session {
    memory: Number,
    phase: Phase,
}

impl View for Session {
    type V = SessionView;

    closed spec fn view(&self) -> SessionView {
        SessionView { memory: self.memory, phase: self.phase@ }
    }
}

impl Session {
    #[verifier::type_invariant]
    spec fn inv(self) -> bool {
        self@.wf()
    }

    /// A session before any input.
    pub fn new() -> (session: Session)
        ensures
            session@ == SessionView::start(),
    {
        Session { memory: Number { bits: 0 }, phase: Phase::AwaitMode }
    }

    /// The memory: the result of the last operation that had one.
    pub fn memory(&self) -> (memory: Number)
        ensures
            memory == self@.memory,
    {
        self.memory
    }

    /// What the session waits for.
    pub fn request(&self) -> (request: Request)
        ensures
            request@ == self@.request(),
            self@.wf(),
    {
        proof {
            use_type_invariant(self);
        }
        match &self.phase {
            Phase::AwaitMode => Request::Line { memory: Some(self.memory), prompt: Prompt::Mode },
            Phase::AwaitExpression => Request::Line { memory: None, prompt: Prompt::Expression },
            Phase::AwaitFirstOperand => Request::Line {
                memory: None,
                prompt: Prompt::FirstOperand,
            },
            Phase::AwaitOperator { .. } => Request::Line { memory: None, prompt: Prompt::Operator },
            Phase::AwaitSecondOperand { .. } => Request::Line {
                memory: None,
                prompt: Prompt::SecondOperand,
            },
            Phase::AwaitContinue => Request::Line { memory: None, prompt: Prompt::Continue },
            Phase::PrefixLeft { token, .. } => Request::Parse(token.clone()),
            Phase::PrefixRight { token, .. } => Request::Parse(token.clone()),
            Phase::InfixLeft { token } => Request::Parse(token.clone()),
            Phase::InfixRight { token, .. } => Request::Parse(token.clone()),
            Phase::Computing { operation, left, right } => Request::Compute {
                operation: *operation,
                left: *left,
                right: *right,
            },
            Phase::Terminated => Request::Exit,
        }
    }

    /// Takes the line that was read, and returns the error to report, if
    /// any.
    pub fn on_line(&mut self, line: &str) -> (report: Option<CalcError>)
        ensures
            (final(self)@, reported(report)) == old(self)@.on_line(line@),
            final(self)@.wf(),
    {
        proof {
            use_type_invariant(&*self);
        }
        let (phase, report) = match &self.phase {
            Phase::AwaitMode => {
                if same(trim(line), "2") {
                    (Phase::AwaitExpression, None)
                } else {
                    (Phase::AwaitFirstOperand, None)
                }
            },
            Phase::AwaitExpression => {
                match Expression::parse(line) {
                    Ok(expression) => {
                        proof {
                            lemma_tokens_are_words(line@, 1);
                            lemma_tokens_are_words(line@, 2);
                        }
                        (
                            Phase::PrefixLeft {
                                operation: expression.operation,
                                token: expression.left,
                                next: expression.right,
                            },
                            None,
                        )
                    },
                    Err(error) => (Phase::AwaitMode, Some(error)),
                }
            },
            Phase::AwaitFirstOperand => {
                let token = trim(line);
                if same(token, "m") {
                    (Phase::AwaitOperator { left: self.memory }, None)
                } else {
                    proof {
                        lemma_trimmed_is_tight(line@);
                    }
                    (Phase::InfixLeft { token: token.to_owned() }, None)
                }
            },
            Phase::AwaitOperator { left } => {
                match Operation::from_str(trim(line)) {
                    Ok(operation) => (Phase::AwaitSecondOperand { left: *left, operation }, None),
                    Err(error) => (Phase::AwaitMode, Some(error)),
                }
            },
            Phase::AwaitSecondOperand { left, operation } => {
                proof {
                    lemma_trimmed_is_tight(line@);
                }
                (
                    Phase::InfixRight {
                        left: *left,
                        operation: *operation,
                        token: trim(line).to_owned(),
                    },
                    None,
                )
            },
            Phase::AwaitContinue => {
                if is_declined(line) {
                    (Phase::Terminated, None)
                } else {
                    (Phase::AwaitMode, None)
                }
            },
            _ => {
                return None;
            },
        };
        self.phase = phase;
        report
    }

    /// Takes what parsing the text that the session asked about gave:
    /// the number, or `None` where the text denotes none. Returns the error
    /// to report, if any.
    pub fn on_parsed(&mut self, parsed: Option<Number>) -> (report: Option<CalcError>)
        ensures
            (final(self)@, reported(report)) == old(self)@.on_parsed(parsed),
            final(self)@.wf(),
    {
        proof {
            use_type_invariant(&*self);
        }
        let (phase, report) = match &self.phase {
            Phase::PrefixLeft { operation, token, next } => match Number::from_parsed(
                parsed,
                token.as_str(),
            ) {
                Ok(left) => (
                    Phase::PrefixRight { operation: *operation, left, token: next.clone() },
                    None,
                ),
                Err(error) => (Phase::AwaitMode, Some(error)),
            },
            Phase::PrefixRight { operation, left, token } => match Number::from_parsed(
                parsed,
                token.as_str(),
            ) {
                Ok(right) => match operation.check(right) {
                    Ok(()) => (
                        Phase::Computing { operation: *operation, left: *left, right },
                        None,
                    ),
                    Err(error) => (Phase::AwaitMode, Some(error)),
                },
                Err(error) => (Phase::AwaitMode, Some(error)),
            },
            Phase::InfixLeft { token } => match Number::from_parsed(parsed, token.as_str()) {
                Ok(left) => (Phase::AwaitOperator { left }, None),
                Err(error) => (Phase::AwaitMode, Some(error)),
            },
            Phase::InfixRight { left, operation, token } => match Number::from_parsed(
                parsed,
                token.as_str(),
            ) {
                Ok(right) => match operation.check(right) {
                    Ok(()) => (
                        Phase::Computing { operation: *operation, left: *left, right },
                        None,
                    ),
                    Err(error) => (Phase::AwaitContinue, Some(error)),
                },
                Err(error) => (Phase::AwaitMode, Some(error)),
            },
            _ => {
                return None;
            },
        };
        self.phase = phase;
        report
    }

    /// Takes the result of the operation that the session asked for, makes
    /// it the memory, and returns it as the result to report. Returns
    /// `None` where the session asked for no result.
    pub fn on_computed(&mut self, value: Number) -> (report: Option<Number>)
        ensures
            (final(self)@, report) == old(self)@.on_computed(value),
            final(self)@.wf(),
    {
        proof {
            use_type_invariant(&*self);
        }
        match &self.phase {
            Phase::Computing { .. } => {
                self.memory = value;
                self.phase = Phase::AwaitContinue;
                Some(value)
            },
            _ => None,
        }
    }
}

/// The session before any input is well formed, and whatever it is fed, a
/// well-formed session stays so.
pub proof fn lemma_wf_is_kept(
    session: SessionView,
    line: Seq<char>,
    parsed: Option<Number>,
    value: Number,
)
    requires
        session.wf(),
    ensures
        SessionView::start().wf(),
        session.on_line(line).0.wf(),
        session.on_parsed(parsed).0.wf(),
        session.on_computed(value).0.wf(),
{
    lemma_trimmed_is_tight(line);
    if tokens(line).len() == 3 {
        lemma_tokens_are_words(line, 1);
        lemma_tokens_are_words(line, 2);
    }
}

/// A well-formed session asks to parse only text without whitespace
/// around it, and asks to compute only an operation that is defined on its
/// operands: it never asks for a division by zero.
pub proof fn lemma_requests_are_sound(session: SessionView)
    requires
        session.wf(),
    ensures
        session.request() matches RequestView::Parse(token) ==> trimmed(token) == token,
        session.request() matches RequestView::Compute { operation, right, .. }
            ==> operation.defined_on(right),
{
    if let RequestView::Parse(token) = session.request() {
        lemma_tight_is_trimmed(token);
    }
}

/// The memory changes when a result that the session asked for comes in,
/// to that result, and at no other step.
pub proof fn lemma_memory_follows_results(
    session: SessionView,
    line: Seq<char>,
    parsed: Option<Number>,
    value: Number,
)
    ensures
        session.on_line(line).0.memory == session.memory,
        session.on_parsed(parsed).0.memory == session.memory,
        session.on_computed(value).0.memory == if session.phase is Computing {
            value
        } else {
            session.memory
        },
{
}

/// After an error the session asks for the mode again, with one
/// exception: where the second operand, given on a line of its own, makes
/// a division by zero, it goes on to ask whether to continue.
pub proof fn lemma_errors_restart(session: SessionView, line: Seq<char>, parsed: Option<Number>)
    ensures
        session.on_line(line).1 is Some ==> session.on_line(line).0.phase == PhaseView::AwaitMode,
        session.on_parsed(parsed).1 is Some ==> {
            let after = session.on_parsed(parsed).0.phase;
            if session.phase is InfixRight && parsed is Some {
                after == PhaseView::AwaitContinue
            } else {
                after == PhaseView::AwaitMode
            }
        },
        session.on_parsed(parsed).1 is Some && parsed is Some ==> session.on_parsed(parsed).1
            == Some(CalcErrorView::DivisionByZero),
{
}

/// A session ends on the answer that declines to go on and on nothing
/// else; once over it stays as it is, reports nothing, and waits for
/// nothing.
pub proof fn lemma_end_is_final(
    session: SessionView,
    line: Seq<char>,
    parsed: Option<Number>,
    value: Number,
)
    ensures
        session.request() == RequestView::Exit <==> session.phase is Terminated,
        session.phase is Terminated ==> {
            &&& session.on_line(line) == (session, None::<CalcErrorView>)
            &&& session.on_parsed(parsed) == (session, None::<CalcErrorView>)
            &&& session.on_computed(value) == (session, None::<Number>)
        },
        !(session.phase is Terminated) ==> {
            &&& session.on_line(line).0.phase is Terminated <==> session.phase is AwaitContinue
                && declines(line)
            &&& !(session.on_parsed(parsed).0.phase is Terminated)
            &&& !(session.on_computed(value).0.phase is Terminated)
        },
{
}

} // verus!
