//! From tokens to operations.
//!
//! The tokens are read in pairs, a keyword and then its operand, in one pass
//! from the left. The first pair that is not well formed ends the pass with its
//! error.

use vstd::prelude::*;
use crate::error::{ErrorKind, ErrorView};
use crate::operation::{operation_views, Operation, OperationView, Operator};
use crate::token::{token_views, Token, TokenView};

verus! {

/// The number of pairs in a list of `len` tokens. A keyword at the very end,
/// with no token after it, still opens a pair.
pub open spec fn pair_count(len: nat) -> nat {
    (len + 1) / 2
}

/// What pair `k` comes to: the operation that its two tokens denote, or the
/// reason why they denote none. The pair's keyword is token `2 * k`, its operand
/// token `2 * k + 1`.
pub open spec fn pair_at(tokens: Seq<TokenView>, k: int) -> Result<OperationView, ErrorView>
    recommends
        0 <= k < pair_count(tokens.len()),
{
    let keyword = tokens[2 * k].text;
    match Operator::named_by(keyword) {
        None => Err(ErrorView::UnknownOperation(keyword)),
        Some(operator) => if 2 * k + 1 >= tokens.len() {
            Err(ErrorView::MissingOperand(keyword))
        } else {
            match tokens[2 * k + 1].number {
                None => Err(ErrorView::InvalidOperand(keyword, tokens[2 * k + 1].text)),
                Some(operand) => Ok(OperationView { operator, operand }),
            }
        },
    }
}

/// What the first `n` pairs come to: their operations in order, or the error of
/// the first pair among them that has one.
pub open spec fn parsed_pairs(tokens: Seq<TokenView>, n: nat) -> Result<
    Seq<OperationView>,
    ErrorView,
>
    recommends
        n <= pair_count(tokens.len()),
    decreases n,
{
    if n == 0 {
        Ok(Seq::empty())
    } else {
        match parsed_pairs(tokens, (n - 1) as nat) {
            Err(e) => Err(e),
            Ok(operations) => match pair_at(tokens, n - 1) {
                Err(e) => Err(e),
                Ok(operation) => Ok(operations.push(operation)),
            },
        }
    }
}

/// What a list of tokens comes to.
pub open spec fn parsed(tokens: Seq<TokenView>) -> Result<Seq<OperationView>, ErrorView> {
    parsed_pairs(tokens, pair_count(tokens.len()))
}

/// Whether keywords and numerals alternate through the whole list: the length is
/// even, each token at an even place names an operator, and each token at an odd
/// place is a numeral.
pub open spec fn alternates(tokens: Seq<TokenView>) -> bool {
    &&& tokens.len() % 2 == 0
    &&& forall|i: int|
        0 <= i < tokens.len() ==> if i % 2 == 0 {
            Operator::named_by((#[trigger] tokens[i]).text) is Some
        } else {
            tokens[i].number is Some
        }
}

/// The operation that pair `k` of an alternating list denotes.
pub open spec fn denoted(tokens: Seq<TokenView>, k: int) -> OperationView
    recommends
        alternates(tokens),
        0 <= k < tokens.len() / 2,
{
    OperationView {
        operator: Operator::named_by(tokens[2 * k].text)->0,
        operand: tokens[2 * k + 1].number->0,
    }
}

/// Whether `r` is the outcome `expected`, operation for operation or text for text.
pub open spec fn is_outcome(
    r: Result<Vec<Operation>, ErrorKind>,
    expected: Result<Seq<OperationView>, ErrorView>,
) -> bool {
    match r {
        Ok(operations) => expected == Ok::<Seq<OperationView>, ErrorView>(
            operation_views(operations@),
        ),
        Err(e) => expected == Err::<Seq<OperationView>, ErrorView>(e@),
    }
}

/// Reads the tokens into operations.
///
/// Succeeds exactly on a list in which keywords and numerals alternate, and then
/// gives one operation for each pair, in the order of the pairs. Otherwise the
/// error is that of the first pair that is not well formed; [`pair_at`] gives the
/// error of each kind of ill-formed pair.
pub fn parse(tokens: &[Token]) -> (r: Result<Vec<Operation>, ErrorKind>)
    ensures
        is_outcome(r, parsed(token_views(tokens@))),
        r is Ok <==> alternates(token_views(tokens@)),
        r matches Ok(operations) ==> operations@.len() == tokens@.len() / 2,
{
    let ghost views = token_views(tokens@);
    let mut operations: Vec<Operation> = Vec::new();
    let mut i: usize = 0;
    proof {
        assert(operation_views(operations@) =~= Seq::empty());
        if alternates(views) {
            law_alternating_tokens_parse(views);
        }
        if parsed(views) is Ok {
            law_parsed_tokens_alternate(views);
        }
    }
    while i < tokens.len()
        invariant
            views == token_views(tokens@),
            parsed(views) is Ok <==> alternates(views),
            i % 2 == 0,
            i <= tokens.len(),
            parsed_pairs(views, (i / 2) as nat) == Ok::<Seq<OperationView>, ErrorView>(
                operation_views(operations@),
            ),
        decreases tokens.len() - i,
    {
        let ghost k: nat = (i / 2) as nat;
        let keyword = &tokens[i];
        assert(views[i as int] == keyword@);
        let operator = match Operator::from_keyword(keyword.text.as_str()) {
            Some(operator) => operator,
            None => {
                proof {
                    lemma_error_stays(views, k + 1, pair_count(views.len()));
                }
                return Err(ErrorKind::UnknownOperation(keyword.text.clone()));
            },
        };
        if i + 1 >= tokens.len() {
            proof {
                lemma_error_stays(views, k + 1, pair_count(views.len()));
            }
            return Err(ErrorKind::MissingOperand(keyword.text.clone()));
        }
        let operand = &tokens[i + 1];
        assert(views[i + 1] == operand@);
        let number = match &operand.number {
            Some(number) => number.duplicate(),
            None => {
                proof {
                    lemma_error_stays(views, k + 1, pair_count(views.len()));
                }
                return Err(
                    ErrorKind::InvalidOperand(keyword.text.clone(), operand.text.clone()),
                );
            },
        };
        let operation = Operation::new(operator, number);
        proof {
            assert(operation_views(operations@.push(operation)) =~= operation_views(
                operations@,
            ).push(operation@));
        }
        operations.push(operation);
        i = i + 2;
    }
    Ok(operations)
}

/// Once a pair has failed, reading further pairs changes nothing.
proof fn lemma_error_stays(tokens: Seq<TokenView>, n: nat, m: nat)
    requires
        n <= m,
        parsed_pairs(tokens, n) is Err,
    ensures
        parsed_pairs(tokens, m) == parsed_pairs(tokens, n),
    decreases m,
{
    if n < m {
        lemma_error_stays(tokens, n, (m - 1) as nat);
    }
}

/// The first `n` pairs of an alternating list come to the operations they denote.
proof fn lemma_alternating_prefix(tokens: Seq<TokenView>, n: nat)
    requires
        alternates(tokens),
        n <= tokens.len() / 2,
    ensures
        parsed_pairs(tokens, n) is Ok,
        parsed_pairs(tokens, n)->Ok_0.len() == n,
        forall|k: int|
            0 <= k < n ==> (#[trigger] parsed_pairs(tokens, n)->Ok_0[k]) == denoted(tokens, k),
    decreases n,
{
    if n > 0 {
        lemma_alternating_prefix(tokens, (n - 1) as nat);
        let keyword = tokens[2 * (n - 1)];
        let operand = tokens[2 * (n - 1) + 1];
        assert(Operator::named_by(keyword.text) is Some);
        assert(operand.number is Some);
        assert(pair_at(tokens, n - 1) == Ok::<OperationView, ErrorView>(denoted(tokens, n - 1)));
    }
}

/// Where the first `n` pairs come to operations, each of them is well formed.
proof fn lemma_parsed_prefix_is_well_formed(tokens: Seq<TokenView>, n: nat)
    requires
        parsed_pairs(tokens, n) is Ok,
    ensures
        forall|k: int| 0 <= k < n ==> (#[trigger] pair_at(tokens, k)) is Ok,
    decreases n,
{
    if n > 0 {
        lemma_parsed_prefix_is_well_formed(tokens, (n - 1) as nat);
    }
}

/// Where each of the first `n` pairs is well formed, they come to operations.
proof fn lemma_well_formed_prefix_parses(tokens: Seq<TokenView>, n: nat)
    requires
        forall|j: int| 0 <= j < n ==> (#[trigger] pair_at(tokens, j)) is Ok,
    ensures
        parsed_pairs(tokens, n) is Ok,
    decreases n,
{
    if n > 0 {
        lemma_well_formed_prefix_parses(tokens, (n - 1) as nat);
        assert(pair_at(tokens, n - 1) is Ok);
    }
}

/// On every list in which keywords and numerals alternate, parsing succeeds, and
/// gives half as many operations as there are tokens, in the order of the input:
/// operation `k` has the operator that token `2 * k` names and the number that
/// token `2 * k + 1` denotes.
pub proof fn law_alternating_tokens_parse(tokens: Seq<TokenView>)
    requires
        alternates(tokens),
    ensures
        parsed(tokens) is Ok,
        parsed(tokens)->Ok_0.len() == tokens.len() / 2,
        forall|k: int|
            0 <= k < tokens.len() / 2 ==> (#[trigger] parsed(tokens)->Ok_0[k]) == denoted(
                tokens,
                k,
            ),
{
    lemma_alternating_prefix(tokens, tokens.len() / 2);
}

/// Parsing succeeds on no other list: where it succeeds, keywords and numerals
/// alternate. In particular a keyword at the end, without an operand, is never
/// dropped in silence.
pub proof fn law_parsed_tokens_alternate(tokens: Seq<TokenView>)
    requires
        parsed(tokens) is Ok,
    ensures
        alternates(tokens),
{
    let n = pair_count(tokens.len());
    lemma_parsed_prefix_is_well_formed(tokens, n);
    if tokens.len() % 2 == 1 {
        assert(pair_at(tokens, n - 1) is Ok);
    }
    assert forall|i: int| 0 <= i < tokens.len() implies if i % 2 == 0 {
        Operator::named_by((#[trigger] tokens[i]).text) is Some
    } else {
        tokens[i].number is Some
    } by {
        assert(pair_at(tokens, i / 2) is Ok);
    }
}

/// The error of a list is that of its first pair that is not well formed: the
/// pass goes from left to right and ends there.
pub proof fn law_first_failure_is_reported(tokens: Seq<TokenView>, k: int, e: ErrorView)
    requires
        0 <= k < pair_count(tokens.len()),
        forall|j: int| 0 <= j < k ==> (#[trigger] pair_at(tokens, j)) is Ok,
        pair_at(tokens, k) == Err::<OperationView, ErrorView>(e),
    ensures
        parsed(tokens) == Err::<Seq<OperationView>, ErrorView>(e),
{
    lemma_well_formed_prefix_parses(tokens, k as nat);
    lemma_error_stays(tokens, (k + 1) as nat, pair_count(tokens.len()));
}

/// An empty list of tokens parses to an empty list of operations.
pub proof fn law_nothing_parses_to_nothing()
    ensures
        parsed(Seq::<TokenView>::empty()) == Ok::<Seq<OperationView>, ErrorView>(Seq::empty()),
{
}

} // verus!
