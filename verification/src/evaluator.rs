//! From operations to a value and the expression that led to it.
//!
//! The operations are applied in order to an accumulator that starts at zero,
//! and each adds its fragment to an expression that starts as `0`. A division by
//! a number that equals zero ends the evaluation with an error.
//!
//! The arithmetic itself is floating-point work, which verified code leaves to
//! its caller: `evaluate` takes it as a function from an operator and two bit
//! patterns to the resulting number, and its contract says of the value what
//! holds whatever that function computes.

use vstd::prelude::*;
use vstd::string::*;
use crate::error::{ErrorKind, ErrorView};
use crate::number::{is_zero_bits, Number, NumberView, POSITIVE_ZERO};
use crate::operation::{operation_views, Operation, OperationView, Operator};

verus! {

/// The expression that the operations spell out: `0`, then the fragment of each
/// operation in order.
pub open spec fn expression(operations: Seq<OperationView>) -> Seq<char>
    decreases operations.len(),
{
    if operations.len() == 0 {
        "0"@
    } else {
        expression(operations.drop_last()) + operations.last().fragment()
    }
}

/// Whether some operation divides by a number that equals zero.
pub open spec fn has_zero_divisor(operations: Seq<OperationView>) -> bool {
    exists|i: int| 0 <= i < operations.len() && (#[trigger] operations[i]).divides_by_zero()
}

/// Whether `apply` can be called for every step that an evaluation takes: on
/// every operator and pair of bit patterns, but for a division by zero.
pub open spec fn carries_out_all<F: Fn(Operator, u64, u64) -> Number>(apply: F) -> bool {
    forall|operator: Operator, left: u64, right: u64|
        !(operator == Operator::Divide && is_zero_bits(right)) ==> call_requires(
            apply,
            (operator, left, right),
        )
}

/// Whether step `i` leads from `values[i]` to `values[i + 1]`: the latter is
/// what `apply` gave for the operator of operation `i`, the former as the left
/// and the operand as the right argument.
pub open spec fn leads_on<F: Fn(Operator, u64, u64) -> Number>(
    apply: F,
    operations: Seq<OperationView>,
    values: Seq<Number>,
    i: int,
) -> bool {
    call_ensures(
        apply,
        (operations[i].operator, values[i].bits, operations[i].operand.bits),
        values[i + 1],
    )
}

/// Whether `values` is the course that the accumulator takes through the
/// operations: it starts at `+0.0`, and each operation leads from one value to
/// the next.
pub open spec fn is_course<F: Fn(Operator, u64, u64) -> Number>(
    apply: F,
    operations: Seq<OperationView>,
    values: Seq<Number>,
) -> bool {
    &&& values.len() == operations.len() + 1
    &&& values[0]@ == NumberView::zero()
    &&& forall|i: int|
        0 <= i < operations.len() ==> #[trigger] leads_on(apply, operations, values, i)
}

/// Whether `value` is where the accumulator ends after the operations.
pub open spec fn accumulates_to<F: Fn(Operator, u64, u64) -> Number>(
    apply: F,
    operations: Seq<OperationView>,
    value: Number,
) -> bool {
    exists|values: Seq<Number>| #[trigger]
        is_course(apply, operations, values) && values.last() == value
}

/// Whether `r` is an outcome of evaluating the operations with `apply`.
///
/// The evaluation fails exactly where an operation divides by zero, and then
/// with `DivisionByZero`. Otherwise it gives the value that the accumulator ends
/// at, and the expression of the operations.
pub open spec fn is_evaluation<F: Fn(Operator, u64, u64) -> Number>(
    apply: F,
    operations: Seq<OperationView>,
    r: Result<(Number, String), ErrorKind>,
) -> bool {
    match r {
        Err(e) => has_zero_divisor(operations) && e@ == ErrorView::DivisionByZero,
        Ok((value, text)) => {
            &&& !has_zero_divisor(operations)
            &&& accumulates_to(apply, operations, value)
            &&& text@ == expression(operations)
        },
    }
}

/// Evaluates the operations from left to right, starting from zero.
///
/// `apply` carries out one step: it is handed the operator, the bit pattern of
/// the accumulator and that of the operand, and returns the new accumulator. It
/// is never called for a division by zero, nor after one.
pub fn evaluate<F: Fn(Operator, u64, u64) -> Number>(operations: &[Operation], apply: F) -> (r:
    Result<(Number, String), ErrorKind>)
    requires
        carries_out_all(apply),
    ensures
        is_evaluation(apply, operation_views(operations@), r),
{
    let ghost views = operation_views(operations@);
    let mut value = Number::zero();
    let mut text = String::from_str("0");
    let ghost mut values: Seq<Number> = seq![value];
    let mut i: usize = 0;
    while i < operations.len()
        invariant
            views == operation_views(operations@),
            carries_out_all(apply),
            i <= operations.len(),
            forall|j: int| 0 <= j < i ==> !(#[trigger] views[j]).divides_by_zero(),
            is_course(apply, views.take(i as int), values),
            values.last() == value,
            text@ == expression(views.take(i as int)),
        decreases operations.len() - i,
    {
        let operation = &operations[i];
        assert(views[i as int] == operation@);
        if operation.divides_by_zero() {
            return Err(ErrorKind::DivisionByZero);
        }
        let operand = operation.operand();
        let next = apply(operation.operator(), value.bits, operand.bits);
        text.append(operation.operator().symbol());
        text.append(operand.shown.as_str());
        proof {
            let before = views.take(i as int);
            let after = views.take(i + 1);
            assert(after.drop_last() =~= before);
            assert(text@ =~= expression(before) + views[i as int].fragment());
            let longer = values.push(next);
            assert forall|j: int| 0 <= j < after.len() implies #[trigger] leads_on(
                apply,
                after,
                longer,
                j,
            ) by {
                if j < i {
                    assert(leads_on(apply, before, values, j));
                }
            }
            values = longer;
        }
        value = next;
        i = i + 1;
    }
    proof {
        assert(views.take(i as int) =~= views);
    }
    Ok((value, text))
}

/// Whether `apply` is a function of its arguments: whatever it may return for
/// the same operator and bit patterns holds the same bits and the same text.
pub open spec fn is_deterministic<F: Fn(Operator, u64, u64) -> Number>(apply: F) -> bool {
    forall|operator: Operator, left: u64, right: u64, first: Number, second: Number|
        call_ensures(apply, (operator, left, right), first) && call_ensures(
            apply,
            (operator, left, right),
            second,
        ) ==> first@ == second@
}

/// Whether two outcomes are the same, number for number and text for text.
pub open spec fn same_outcome(
    first: Result<(Number, String), ErrorKind>,
    second: Result<(Number, String), ErrorKind>,
) -> bool {
    match (first, second) {
        (Ok((v1, t1)), Ok((v2, t2))) => v1@ == v2@ && t1@ == t2@,
        (Err(e1), Err(e2)) => e1@ == e2@,
        _ => false,
    }
}

/// Two courses through the same operations agree at every step, where the
/// arithmetic is a function of its arguments.
proof fn lemma_courses_agree<F: Fn(Operator, u64, u64) -> Number>(
    apply: F,
    operations: Seq<OperationView>,
    first: Seq<Number>,
    second: Seq<Number>,
    n: int,
)
    requires
        is_deterministic(apply),
        is_course(apply, operations, first),
        is_course(apply, operations, second),
        0 <= n <= operations.len(),
    ensures
        first[n]@ == second[n]@,
    decreases n,
{
    if n > 0 {
        lemma_courses_agree(apply, operations, first, second, n - 1);
        assert(leads_on(apply, operations, first, n - 1));
        assert(leads_on(apply, operations, second, n - 1));
    }
}

/// Evaluating the same operations again gives the same outcome: with arithmetic
/// that is a function of its arguments, any two outcomes that `evaluate` may
/// have on one list of operations agree in value, in expression and in error.
pub proof fn law_evaluation_is_repeatable<F: Fn(Operator, u64, u64) -> Number>(
    apply: F,
    operations: Seq<OperationView>,
    first: Result<(Number, String), ErrorKind>,
    second: Result<(Number, String), ErrorKind>,
)
    requires
        is_deterministic(apply),
        is_evaluation(apply, operations, first),
        is_evaluation(apply, operations, second),
    ensures
        same_outcome(first, second),
{
    if first is Ok {
        let c1 = choose|values: Seq<Number>| #[trigger]
            is_course(apply, operations, values) && values.last() == first->Ok_0.0;
        let c2 = choose|values: Seq<Number>| #[trigger]
            is_course(apply, operations, values) && values.last() == second->Ok_0.0;
        lemma_courses_agree(apply, operations, c1, c2, operations.len() as int);
    }
}

/// The step of the left fold that goes with an arithmetic on bit patterns.
pub open spec fn fold_step(arithmetic: spec_fn(Operator, u64, u64) -> u64) -> spec_fn(
    u64,
    OperationView,
) -> u64 {
    |accumulator: u64, operation: OperationView|
        arithmetic(operation.operator, accumulator, operation.operand.bits)
}

/// Whether `apply` computes `arithmetic`: whatever it returns holds the bits
/// that `arithmetic` gives for the same operator and bit patterns.
pub open spec fn computes<F: Fn(Operator, u64, u64) -> Number>(
    apply: F,
    arithmetic: spec_fn(Operator, u64, u64) -> u64,
) -> bool {
    forall|operator: Operator, left: u64, right: u64, result: Number| #[trigger]
        call_ensures(apply, (operator, left, right), result) ==> result.bits == arithmetic(
            operator,
            left,
            right,
        )
}

/// After each operation the accumulator is the left fold of the operations so
/// far: where `apply` computes `arithmetic`, value `n` of a course holds the bits
/// of the fold of the first `n` operations over `+0.0`.
pub proof fn law_course_is_left_fold<F: Fn(Operator, u64, u64) -> Number>(
    apply: F,
    arithmetic: spec_fn(Operator, u64, u64) -> u64,
    operations: Seq<OperationView>,
    values: Seq<Number>,
    n: int,
)
    requires
        computes(apply, arithmetic),
        is_course(apply, operations, values),
        0 <= n <= operations.len(),
    ensures
        values[n].bits == operations.take(n).fold_left(POSITIVE_ZERO, fold_step(arithmetic)),
    decreases n,
{
    if n > 0 {
        law_course_is_left_fold(apply, arithmetic, operations, values, n - 1);
        assert(leads_on(apply, operations, values, n - 1));
        assert(operations.take(n).drop_last() =~= operations.take(n - 1));
    }
}

/// The value of an evaluation is the left fold of all the operations over
/// `+0.0`, each applied with the arithmetic of its operator: where `apply`
/// computes `arithmetic`, the value holds the bits that `arithmetic` gives when
/// it is applied to `+0.0` and the first operand, then to that result and the
/// second operand, and so on to the last.
pub proof fn law_value_is_left_fold<F: Fn(Operator, u64, u64) -> Number>(
    apply: F,
    arithmetic: spec_fn(Operator, u64, u64) -> u64,
    operations: Seq<OperationView>,
    value: Number,
)
    requires
        computes(apply, arithmetic),
        accumulates_to(apply, operations, value),
    ensures
        value.bits == operations.fold_left(POSITIVE_ZERO, fold_step(arithmetic)),
{
    let values = choose|values: Seq<Number>| #[trigger]
        is_course(apply, operations, values) && values.last() == value;
    law_course_is_left_fold(apply, arithmetic, operations, values, operations.len() as int);
    assert(operations.take(operations.len() as int) =~= operations);
}

/// Without operations the evaluation succeeds, the value is `+0.0` and the
/// expression is `0`.
pub proof fn law_nothing_evaluates_to_zero<F: Fn(Operator, u64, u64) -> Number>(
    apply: F,
    r: Result<(Number, String), ErrorKind>,
)
    requires
        is_evaluation(apply, Seq::<OperationView>::empty(), r),
    ensures
        r is Ok,
        r->Ok_0.0@ == NumberView::zero(),
        r->Ok_0.1@ == "0"@,
{
    let operations = Seq::<OperationView>::empty();
    let values = choose|values: Seq<Number>| #[trigger]
        is_course(apply, operations, values) && values.last() == r->Ok_0.0;
    assert(values.last() == values[0]);
}

} // verus!
