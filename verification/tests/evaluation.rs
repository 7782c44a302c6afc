use clc::error::ErrorKind;
use clc::evaluator::evaluate;
use clc::number::Number;
use clc::operation::{Operation, Operator};

fn num(x: f64) -> Number {
    Number::new(x.to_bits(), x.to_string())
}

fn arithmetic(operator: Operator, left: u64, right: u64) -> Number {
    let x = f64::from_bits(left);
    let y = f64::from_bits(right);
    num(match operator {
        Operator::Add => x + y,
        Operator::Subtract => x - y,
        Operator::Multiply => x * y,
        Operator::Divide => x / y,
    })
}

fn refuses_zero_divisors(operator: Operator, left: u64, right: u64) -> Number {
    if operator == Operator::Divide && f64::from_bits(right) == 0.0 {
        panic!("called for a division by zero");
    }
    arithmetic(operator, left, right)
}

#[test]
fn no_operations_evaluate_to_zero() {
    let (value, expression) = evaluate(&Vec::new(), arithmetic).unwrap();
    assert_eq!(value.bits, 0.0f64.to_bits());
    assert_eq!(value.shown, "0");
    assert_eq!(expression, "0");
}

#[test]
fn one_addition() {
    let (value, expression) = evaluate(&vec![Operation::Add(num(5.0))], arithmetic).unwrap();
    assert_eq!(f64::from_bits(value.bits), 5.0);
    assert_eq!(value.shown, "5");
    assert_eq!(expression, "0 + 5");
}

#[test]
fn addition_then_multiplication() {
    let ops = vec![Operation::Add(num(5.0)), Operation::Multiply(num(3.0))];
    let (value, expression) = evaluate(&ops, arithmetic).unwrap();
    assert_eq!(f64::from_bits(value.bits), 15.0);
    assert_eq!(expression, "0 + 5 * 3");
}

#[test]
fn operations_apply_from_left_to_right_without_precedence() {
    let ops = vec![
        Operation::Add(num(2.0)),
        Operation::Multiply(num(3.0)),
        Operation::Subtract(num(1.0)),
        Operation::Divide(num(4.0)),
    ];
    let (value, expression) = evaluate(&ops, arithmetic).unwrap();
    assert_eq!(f64::from_bits(value.bits), 1.25);
    assert_eq!(value.shown, "1.25");
    assert_eq!(expression, "0 + 2 * 3 - 1 / 4");
}

#[test]
fn each_operator_uses_its_own_arithmetic() {
    let add = evaluate(&vec![Operation::Add(num(8.0))], arithmetic).unwrap();
    let subtract = evaluate(&vec![Operation::Subtract(num(8.0))], arithmetic).unwrap();
    let multiply =
        evaluate(&vec![Operation::Add(num(8.0)), Operation::Multiply(num(8.0))], arithmetic)
            .unwrap();
    let divide =
        evaluate(&vec![Operation::Add(num(8.0)), Operation::Divide(num(2.0))], arithmetic).unwrap();
    assert_eq!(f64::from_bits(add.0.bits), 8.0);
    assert_eq!(f64::from_bits(subtract.0.bits), -8.0);
    assert_eq!(f64::from_bits(multiply.0.bits), 64.0);
    assert_eq!(f64::from_bits(divide.0.bits), 4.0);
    assert_eq!(subtract.1, "0 - 8");
    assert_eq!(divide.1, "0 + 8 / 2");
}

#[test]
fn value_is_the_left_fold_over_zero() {
    let operands = [0.1, 0.2, 0.3, 1e16, 7.0];
    let ops = vec![
        Operation::Add(num(operands[0])),
        Operation::Add(num(operands[1])),
        Operation::Multiply(num(operands[2])),
        Operation::Subtract(num(operands[3])),
        Operation::Divide(num(operands[4])),
    ];
    let expected = ((((0.0 + operands[0]) + operands[1]) * operands[2]) - operands[3]) / operands[4];
    let (value, _) = evaluate(&ops, arithmetic).unwrap();
    assert_eq!(value.bits, expected.to_bits());
}

#[test]
fn expression_uses_the_printed_form_of_each_operand() {
    let ops = vec![
        Operation::Add(num(-3.0)),
        Operation::Subtract(num(2.50)),
        Operation::Multiply(num(1e21)),
        Operation::Divide(num(0.001)),
    ];
    let (_, expression) = evaluate(&ops, arithmetic).unwrap();
    assert_eq!(expression, "0 + -3 - 2.5 * 1000000000000000000000 / 0.001");
}

#[test]
fn expression_has_one_fragment_for_each_operation() {
    let ops = vec![Operation::Add(num(1.0)), Operation::Add(num(2.0)), Operation::Add(num(3.0))];
    let (_, expression) = evaluate(&ops, arithmetic).unwrap();
    assert_eq!(expression.matches(" + ").count(), ops.len());
}

#[test]
fn division_by_zero_fails() {
    assert_eq!(
        evaluate(&vec![Operation::Divide(num(0.0))], arithmetic),
        Err(ErrorKind::DivisionByZero)
    );
}

#[test]
fn division_by_negative_zero_fails() {
    assert_eq!(
        evaluate(&vec![Operation::Add(num(1.0)), Operation::Divide(num(-0.0))], arithmetic),
        Err(ErrorKind::DivisionByZero)
    );
}

#[test]
fn division_by_zero_anywhere_fails_the_whole_evaluation() {
    let ops = vec![
        Operation::Add(num(1.0)),
        Operation::Divide(num(0.0)),
        Operation::Add(num(2.0)),
    ];
    assert_eq!(evaluate(&ops, arithmetic), Err(ErrorKind::DivisionByZero));
}

#[test]
fn arithmetic_is_never_asked_to_divide_by_zero() {
    let ops = vec![
        Operation::Add(num(1.0)),
        Operation::Divide(num(2.0)),
        Operation::Divide(num(-0.0)),
        Operation::Divide(num(0.0)),
    ];
    assert_eq!(evaluate(&ops, refuses_zero_divisors), Err(ErrorKind::DivisionByZero));
}

#[test]
fn nothing_is_applied_after_a_division_by_zero() {
    let calls = std::cell::Cell::new(0u32);
    let counting = |operator: Operator, left: u64, right: u64| {
        calls.set(calls.get() + 1);
        arithmetic(operator, left, right)
    };
    let ops = vec![
        Operation::Add(num(1.0)),
        Operation::Multiply(num(2.0)),
        Operation::Divide(num(0.0)),
        Operation::Add(num(3.0)),
        Operation::Add(num(4.0)),
    ];
    assert_eq!(evaluate(&ops, &counting), Err(ErrorKind::DivisionByZero));
    assert_eq!(calls.get(), 2);
}

#[test]
fn other_operators_take_zero() {
    let ops = vec![
        Operation::Add(num(0.0)),
        Operation::Subtract(num(0.0)),
        Operation::Multiply(num(0.0)),
    ];
    let (value, expression) = evaluate(&ops, arithmetic).unwrap();
    assert_eq!(f64::from_bits(value.bits), 0.0);
    assert_eq!(expression, "0 + 0 - 0 * 0");
}

#[test]
fn smallest_nonzero_divisor_is_accepted() {
    let ops = vec![Operation::Add(num(1.0)), Operation::Divide(num(5e-324))];
    let (value, _) = evaluate(&ops, arithmetic).unwrap();
    assert_eq!(f64::from_bits(value.bits), f64::INFINITY);
    assert_eq!(value.shown, "inf");
}

#[test]
fn infinities_and_nan_pass_through() {
    let ops = vec![Operation::Add(num(f64::INFINITY)), Operation::Subtract(num(f64::INFINITY))];
    let (value, expression) = evaluate(&ops, arithmetic).unwrap();
    assert!(f64::from_bits(value.bits).is_nan());
    assert_eq!(value.shown, "NaN");
    assert_eq!(expression, "0 + inf - inf");
}

#[test]
fn evaluating_again_gives_the_same_outcome() {
    let ops = vec![
        Operation::Add(num(0.1)),
        Operation::Multiply(num(3.0)),
        Operation::Divide(num(7.0)),
    ];
    let first = evaluate(&ops, arithmetic);
    let second = evaluate(&ops, arithmetic);
    assert!(first.is_ok());
    assert_eq!(first, second);
    let failing = vec![Operation::Divide(num(0.0))];
    assert_eq!(evaluate(&failing, arithmetic), evaluate(&failing, arithmetic));
}
