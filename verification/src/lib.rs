//! A calculator for flat operation lists such as `add 5 multiply 3`: the tokens are
//! read in pairs, keyword then numeral, and the resulting operations are folded
//! from left to right over zero.
//!
//! Numbers are binary64 values. Verified code does no floating-point arithmetic,
//! so a number travels as its bit pattern together with its printed form, and the
//! one computation that needs the arithmetic itself, the fold, takes it as a
//! function.

pub mod keyword;
pub mod number;
pub mod operation;
pub mod error;
pub mod token;
pub mod parser;
pub mod evaluator;
pub mod reply;
