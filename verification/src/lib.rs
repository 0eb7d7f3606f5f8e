//! The engine of an interactive calculator that keeps its last result in
//! memory and takes a calculation either prompt by prompt (first operand,
//! operator, second operand) or as one expression in prefix form.
//!
//! The library decides; it reads nothing, prints nothing, and does no
//! arithmetic. A program drives a [`session::Session`]: it asks the
//! session what it waits for, does that (reads a line, parses a number,
//! computes a result), and hands back what came of it. Numbers pass through
//! the library as bit patterns, see [`number::Number`].
//!
//! - [`text`]: whitespace, trimming, tokens.
//! - [`operation`]: the four operations, and the rule on division by zero.
//! - [`expression`]: expressions in prefix form.
//! - [`session`]: the state machine of the dialogue.
//! - [`flows`]: what a whole calculation comes to, and that the session
//!   arrives at it.
//! - [`dialogue`]: prompts, report lines, and the answer that ends a session.
//! - [`number`], [`error`]: numbers and errors.

pub mod dialogue;
pub mod error;
pub mod expression;
pub mod flows;
pub mod number;
pub mod operation;
pub mod session;
pub mod text;
