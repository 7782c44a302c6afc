//! The ways in which a list of tokens can fail, and the message of each.

use vstd::prelude::*;
use vstd::string::*;

verus! {

/// Why parsing or evaluation stopped. Every failure ends the computation: the
/// first one met is the one reported.
#[derive(Debug, Clone, PartialEq, Eq)]
pub enum ErrorKind {
    /// The token in a keyword's place names no operator. Holds the token.
    UnknownOperation(String),
    /// A keyword was the last token. Holds the keyword as it was written.
    MissingOperand(String),
    /// The token after a keyword is no numeral. Holds the keyword as it was
    /// written, then the token.
    InvalidOperand(String, String),
    /// A division by a number that equals zero.
    DivisionByZero,
}

/// What an [`ErrorKind`] holds, with each text as a sequence of characters.
pub enum ErrorView {
    UnknownOperation(Seq<char>),
    MissingOperand(Seq<char>),
    InvalidOperand(Seq<char>, Seq<char>),
    DivisionByZero,
}

impl View for ErrorKind {
    type V = ErrorView;

    open spec fn view(&self) -> ErrorView {
        match *self {
            ErrorKind::UnknownOperation(token) => ErrorView::UnknownOperation(token@),
            ErrorKind::MissingOperand(keyword) => ErrorView::MissingOperand(keyword@),
            ErrorKind::InvalidOperand(keyword, token) => ErrorView::InvalidOperand(
                keyword@,
                token@,
            ),
            ErrorKind::DivisionByZero => ErrorView::DivisionByZero,
        }
    }
}

impl ErrorView {
    /// The line that reports the failure.
    pub open spec fn message(self) -> Seq<char> {
        match self {
            ErrorView::UnknownOperation(token) => "Invalid operation: "@ + token,
            ErrorView::MissingOperand(keyword) => "Missing number after "@ + keyword,
            ErrorView::InvalidOperand(keyword, _) => "Invalid number after "@ + keyword,
            ErrorView::DivisionByZero => "Division by zero"@,
        }
    }
}

impl ErrorKind {
    /// The line that reports the failure.
    pub fn message(&self) -> (r: String)
        ensures
            r@ == self@.message(),
    {
        match self {
            ErrorKind::UnknownOperation(token) => {
                String::from_str("Invalid operation: ").concat(token.as_str())
            },
            ErrorKind::MissingOperand(keyword) => {
                String::from_str("Missing number after ").concat(keyword.as_str())
            },
            ErrorKind::InvalidOperand(keyword, _) => {
                String::from_str("Invalid number after ").concat(keyword.as_str())
            },
            ErrorKind::DivisionByZero => String::from_str("Division by zero"),
        }
    }
}

} // verus!
