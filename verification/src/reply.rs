//! The line that answers a list of tokens.

use vstd::prelude::*;
use vstd::string::*;
use crate::error::ErrorView;
use crate::evaluator::{accumulates_to, carries_out_all, evaluate, expression, has_zero_divisor};
use crate::number::{Number, NumberView};
use crate::operation::Operator;
use crate::parser::{parse, parsed};
use crate::token::{token_views, Token, TokenView};

verus! {

/// One line of output, and the stream it is meant for.
#[derive(Debug, Clone, PartialEq, Eq)]
pub enum Reply {
    /// A result, for standard output.
    Stdout(String),
    /// A complaint, for standard error.
    Stderr(String),
}

/// What a [`Reply`] holds, with the line as a sequence of characters.
pub enum ReplyView {
    Stdout(Seq<char>),
    Stderr(Seq<char>),
}

impl View for Reply {
    type V = ReplyView;

    open spec fn view(&self) -> ReplyView {
        match *self {
            Reply::Stdout(line) => ReplyView::Stdout(line@),
            Reply::Stderr(line) => ReplyView::Stderr(line@),
        }
    }
}

/// The line that reports a result: the expression, ` = `, and the value as printed.
pub open spec fn result_line(expression: Seq<char>, value: NumberView) -> Seq<char> {
    expression + " = "@ + value.shown
}

/// Whether `reply` answers the tokens, the arithmetic being done by `apply`.
///
/// An empty list is answered by a complaint that there is nothing to do. A list
/// that does not parse, or that divides by zero, is answered by the message of
/// its error. Any other list is answered by its result line.
pub open spec fn is_reply<F: Fn(Operator, u64, u64) -> Number>(
    apply: F,
    tokens: Seq<TokenView>,
    reply: Reply,
) -> bool {
    if tokens.len() == 0 {
        reply@ == ReplyView::Stderr("No operations provided"@)
    } else {
        match parsed(tokens) {
            Err(e) => reply@ == ReplyView::Stderr(e.message()),
            Ok(operations) => if has_zero_divisor(operations) {
                reply@ == ReplyView::Stderr(ErrorView::DivisionByZero.message())
            } else {
                exists|value: Number| #[trigger]
                    accumulates_to(apply, operations, value) && reply@ == ReplyView::Stdout(
                        result_line(expression(operations), value@),
                    )
            },
        }
    }
}

/// Answers a list of tokens: parses it, evaluates the operations with `apply`,
/// and words the outcome.
pub fn respond<F: Fn(Operator, u64, u64) -> Number>(tokens: &[Token], apply: F) -> (reply: Reply)
    requires
        carries_out_all(apply),
    ensures
        is_reply(apply, token_views(tokens@), reply),
{
    if tokens.len() == 0 {
        return Reply::Stderr(String::from_str("No operations provided"));
    }
    let operations = match parse(tokens) {
        Ok(operations) => operations,
        Err(e) => {
            return Reply::Stderr(e.message());
        },
    };
    match evaluate(operations.as_slice(), apply) {
        Ok((value, text)) => {
            let mut line = text;
            line.append(" = ");
            line.append(value.shown.as_str());
            Reply::Stdout(line)
        },
        Err(e) => Reply::Stderr(e.message()),
    }
}

} // verus!
