//! Tokens: the arguments as the parser takes them.

use vstd::prelude::*;
use crate::number::{Number, NumberView};

verus! {

/// One argument: its text and, where the text is a numeral, the number it
/// denotes.
///
/// Reading a numeral is floating-point work, which verified code leaves to its
/// caller: `number` is the caller's reading of `text`, and `None` says that the
/// text is no numeral. The parser consults it only for a token that stands in an
/// operand's place.
#[derive(Debug, Clone, PartialEq, Eq)]
pub struct Token {
    pub text: String,
    pub number: Option<Number>,
}

/// What a [`Token`] holds, with each text as a sequence of characters.
pub struct TokenView {
    pub text: Seq<char>,
    pub number: Option<NumberView>,
}

impl View for Token {
    type V = TokenView;

    open spec fn view(&self) -> TokenView {
        TokenView {
            text: self.text@,
            number: match self.number {
                Some(n) => Some(n@),
                None => None,
            },
        }
    }
}

/// The views of a sequence of tokens, in order.
pub open spec fn token_views(tokens: Seq<Token>) -> Seq<TokenView> {
    tokens.map_values(|t: Token| t@)
}

impl Token {
    /// The token with the given text and reading.
    pub fn new(text: String, number: Option<Number>) -> (r: Token)
        ensures
            r.text == text,
            r.number == number,
    {
        Token { text, number }
    }
}

} // verus!
