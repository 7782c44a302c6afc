//! The four operators, the keywords that name them, and operations.

use vstd::prelude::*;
use vstd::string::*;
use crate::keyword::{folded, same_ignoring_case};
use crate::number::{Number, NumberView};

verus! {

/// One of the four arithmetic operators.
#[derive(Debug, Clone, Copy, PartialEq, Eq, Structural)]
pub enum Operator {
    Add,
    Subtract,
    Multiply,
    Divide,
}

impl Operator {
    /// The operator that a keyword names, if it names one. Each operator has a
    /// word and a symbol, and the case of the letters does not count.
    pub open spec fn named_by(word: Seq<char>) -> Option<Operator> {
        let w = folded(word);
        if w == "add"@ || w == "+"@ {
            Some(Operator::Add)
        } else if w == "subtract"@ || w == "-"@ {
            Some(Operator::Subtract)
        } else if w == "multiply"@ || w == "*"@ {
            Some(Operator::Multiply)
        } else if w == "divide"@ || w == "/"@ {
            Some(Operator::Divide)
        } else {
            None
        }
    }

    /// The operator's symbol as it stands in an expression, a space on either side.
    pub open spec fn sign(self) -> Seq<char> {
        match self {
            Operator::Add => " + "@,
            Operator::Subtract => " - "@,
            Operator::Multiply => " * "@,
            Operator::Divide => " / "@,
        }
    }

    /// Recognizes a keyword.
    pub fn from_keyword(word: &str) -> (r: Option<Operator>)
        ensures
            r == Self::named_by(word@),
    {
        proof {
            lemma_keywords_are_folded();
        }
        if same_ignoring_case(word, "add") || same_ignoring_case(word, "+") {
            Some(Operator::Add)
        } else if same_ignoring_case(word, "subtract") || same_ignoring_case(word, "-") {
            Some(Operator::Subtract)
        } else if same_ignoring_case(word, "multiply") || same_ignoring_case(word, "*") {
            Some(Operator::Multiply)
        } else if same_ignoring_case(word, "divide") || same_ignoring_case(word, "/") {
            Some(Operator::Divide)
        } else {
            None
        }
    }

    /// The operator's sign.
    pub fn symbol(self) -> (r: &'static str)
        ensures
            r@ == self.sign(),
    {
        match self {
            Operator::Add => " + ",
            Operator::Subtract => " - ",
            Operator::Multiply => " * ",
            Operator::Divide => " / ",
        }
    }
}

/// Folding leaves each of the eight keywords as it is.
proof fn lemma_keywords_are_folded()
    ensures
        folded("add"@) == "add"@,
        folded("+"@) == "+"@,
        folded("subtract"@) == "subtract"@,
        folded("-"@) == "-"@,
        folded("multiply"@) == "multiply"@,
        folded("*"@) == "*"@,
        folded("divide"@) == "divide"@,
        folded("/"@) == "/"@,
{
    reveal_strlit("add");
    reveal_strlit("+");
    reveal_strlit("subtract");
    reveal_strlit("-");
    reveal_strlit("multiply");
    reveal_strlit("*");
    reveal_strlit("divide");
    reveal_strlit("/");
    assert(folded("add"@) =~= "add"@);
    assert(folded("+"@) =~= "+"@);
    assert(folded("subtract"@) =~= "subtract"@);
    assert(folded("-"@) =~= "-"@);
    assert(folded("multiply"@) =~= "multiply"@);
    assert(folded("*"@) =~= "*"@);
    assert(folded("divide"@) =~= "divide"@);
    assert(folded("/"@) =~= "/"@);
}

/// Keywords that differ only in the case of their ASCII letters name the same
/// operator, or both name none.
pub proof fn law_keyword_case_is_ignored(first: Seq<char>, second: Seq<char>)
    requires
        folded(first) == folded(second),
    ensures
        Operator::named_by(first) == Operator::named_by(second),
{
}

/// Each operator is named by its word and by its symbol, in any case of the
/// letters, and by nothing else.
pub proof fn law_keywords_of_each_operator(keyword: Seq<char>)
    ensures
        Operator::named_by(keyword) == Some(Operator::Add) <==> folded(keyword) == "add"@
            || folded(keyword) == "+"@,
        Operator::named_by(keyword) == Some(Operator::Subtract) <==> folded(keyword)
            == "subtract"@ || folded(keyword) == "-"@,
        Operator::named_by(keyword) == Some(Operator::Multiply) <==> folded(keyword)
            == "multiply"@ || folded(keyword) == "*"@,
        Operator::named_by(keyword) == Some(Operator::Divide) <==> folded(keyword) == "divide"@
            || folded(keyword) == "/"@,
{
    reveal_strlit("add");
    reveal_strlit("+");
    reveal_strlit("subtract");
    reveal_strlit("-");
    reveal_strlit("multiply");
    reveal_strlit("*");
    reveal_strlit("divide");
    reveal_strlit("/");
    let w = folded(keyword);
    if w.len() == 1 {
        assert("+"@[0] == '+' && "-"@[0] == '-' && "*"@[0] == '*' && "/"@[0] == '/');
    }
    if w.len() == 8 {
        assert("subtract"@[0] == 's' && "multiply"@[0] == 'm');
    }
}

/// One arithmetic step: an operator and the number it is applied with.
#[derive(Debug, Clone, PartialEq, Eq)]
pub enum Operation {
    Add(Number),
    Subtract(Number),
    Multiply(Number),
    Divide(Number),
}

/// What an [`Operation`] holds: its operator and its operand.
pub struct OperationView {
    pub operator: Operator,
    pub operand: NumberView,
}

impl OperationView {
    /// Whether the operation is a division by a number that equals zero.
    pub open spec fn divides_by_zero(self) -> bool {
        self.operator == Operator::Divide && self.operand.is_zero()
    }

    /// What the operation adds to an expression: its sign, then its operand as printed.
    pub open spec fn fragment(self) -> Seq<char> {
        self.operator.sign() + self.operand.shown
    }
}

impl View for Operation {
    type V = OperationView;

    open spec fn view(&self) -> OperationView {
        match *self {
            Operation::Add(n) => OperationView { operator: Operator::Add, operand: n@ },
            Operation::Subtract(n) => OperationView { operator: Operator::Subtract, operand: n@ },
            Operation::Multiply(n) => OperationView { operator: Operator::Multiply, operand: n@ },
            Operation::Divide(n) => OperationView { operator: Operator::Divide, operand: n@ },
        }
    }
}

/// The views of a sequence of operations, in order.
pub open spec fn operation_views(operations: Seq<Operation>) -> Seq<OperationView> {
    operations.map_values(|op: Operation| op@)
}

impl Operation {
    /// The operation that applies `operator` with `operand`.
    pub fn new(operator: Operator, operand: Number) -> (r: Operation)
        ensures
            r@ == (OperationView { operator, operand: operand@ }),
    {
        match operator {
            Operator::Add => Operation::Add(operand),
            Operator::Subtract => Operation::Subtract(operand),
            Operator::Multiply => Operation::Multiply(operand),
            Operator::Divide => Operation::Divide(operand),
        }
    }

    /// The operator that the operation applies.
    pub fn operator(&self) -> (r: Operator)
        ensures
            r == self@.operator,
    {
        match self {
            Operation::Add(_) => Operator::Add,
            Operation::Subtract(_) => Operator::Subtract,
            Operation::Multiply(_) => Operator::Multiply,
            Operation::Divide(_) => Operator::Divide,
        }
    }

    /// The number that the operation applies its operator with.
    pub fn operand(&self) -> (r: &Number)
        ensures
            r@ == self@.operand,
    {
        match self {
            Operation::Add(n) => n,
            Operation::Subtract(n) => n,
            Operation::Multiply(n) => n,
            Operation::Divide(n) => n,
        }
    }

    /// Whether the operation is a division by a number that equals zero.
    pub fn divides_by_zero(&self) -> (r: bool)
        ensures
            r == self@.divides_by_zero(),
    {
        match self {
            Operation::Divide(n) => n.is_zero(),
            _ => false,
        }
    }
}

} // verus!
