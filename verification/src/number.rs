//! Numbers as verified code holds them.

use vstd::prelude::*;
use vstd::string::*;

verus! {

/// The bit pattern of the binary64 value `+0.0`.
pub const POSITIVE_ZERO: u64 = 0;

/// The bit pattern of the binary64 value `-0.0`.
pub const NEGATIVE_ZERO: u64 = 0x8000_0000_0000_0000;

/// A binary64 value: its bit pattern, and the text that the platform prints for it.
///
/// The library never computes one field from the other. Whoever makes a `Number`
/// (from a numeral that was read, or as the result of an arithmetic step) answers
/// for the two fields belonging to the same value.
#[derive(Debug, Clone, PartialEq, Eq)]
pub struct Number {
    pub bits: u64,
    pub shown: String,
}

/// What a [`Number`] holds, with the text as a sequence of characters.
pub struct NumberView {
    pub bits: u64,
    pub shown: Seq<char>,
}

impl View for Number {
    type V = NumberView;

    open spec fn view(&self) -> NumberView {
        NumberView { bits: self.bits, shown: self.shown@ }
    }
}

/// Whether a bit pattern is one of the two zeros of binary64. These are the
/// values that compare equal to `0.0`; no other pattern does.
pub open spec fn is_zero_bits(bits: u64) -> bool {
    bits == POSITIVE_ZERO || bits == NEGATIVE_ZERO
}

impl NumberView {
    /// The value that every evaluation starts from: `+0.0`, printed as `0`.
    pub open spec fn zero() -> NumberView {
        NumberView { bits: POSITIVE_ZERO, shown: "0"@ }
    }

    /// Whether the value compares equal to `0.0`.
    pub open spec fn is_zero(self) -> bool {
        is_zero_bits(self.bits)
    }
}

impl Number {
    /// The number with the given bit pattern and printed form.
    pub fn new(bits: u64, shown: String) -> (r: Number)
        ensures
            r@ == (NumberView { bits, shown: shown@ }),
    {
        Number { bits, shown }
    }

    /// `+0.0`.
    pub fn zero() -> (r: Number)
        ensures
            r@ == NumberView::zero(),
    {
        Number { bits: POSITIVE_ZERO, shown: String::from_str("0") }
    }

    /// Whether the value compares equal to `0.0`.
    pub fn is_zero(&self) -> (r: bool)
        ensures
            r == self@.is_zero(),
    {
        self.bits == POSITIVE_ZERO || self.bits == NEGATIVE_ZERO
    }

    /// A second `Number` with the same contents.
    pub fn duplicate(&self) -> (r: Number)
        ensures
            r@ == self@,
    {
        Number { bits: self.bits, shown: self.shown.clone() }
    }
}

} // verus!
