use clc::number::Number;
use clc::operation::Operator;
use clc::reply::{respond, Reply};
use clc::token::Token;

fn binary64(x: f64) -> Number {
    Number::new(x.to_bits(), x.to_string())
}

fn argument(text: &str) -> Token {
    Token::new(String::from(text), text.parse::<f64>().ok().map(binary64))
}

fn compute(operator: Operator, left: u64, right: u64) -> Number {
    let x = f64::from_bits(left);
    let y = f64::from_bits(right);
    binary64(match operator {
        Operator::Add => x + y,
        Operator::Subtract => x - y,
        Operator::Multiply => x * y,
        Operator::Divide => x / y,
    })
}

fn answer(arguments: &[&str]) -> Reply {
    let tokens: Vec<Token> = arguments.iter().map(|a| argument(a)).collect();
    respond(&tokens, compute)
}

#[test]
fn add_five() {
    assert_eq!(answer(&["add", "5"]), Reply::Stdout(String::from("0 + 5 = 5")));
}

#[test]
fn add_five_multiply_three() {
    assert_eq!(
        answer(&["add", "5", "multiply", "3"]),
        Reply::Stdout(String::from("0 + 5 * 3 = 15"))
    );
}

#[test]
fn divide_by_zero_is_a_complaint() {
    assert_eq!(answer(&["divide", "0"]), Reply::Stderr(String::from("Division by zero")));
}

#[test]
fn unknown_operation_is_a_complaint() {
    assert_eq!(answer(&["foo", "5"]), Reply::Stderr(String::from("Invalid operation: foo")));
}

#[test]
fn missing_number_is_a_complaint() {
    assert_eq!(answer(&["add"]), Reply::Stderr(String::from("Missing number after add")));
}

#[test]
fn invalid_number_is_a_complaint() {
    assert_eq!(answer(&["add", "abc"]), Reply::Stderr(String::from("Invalid number after add")));
}

#[test]
fn no_arguments_are_a_complaint() {
    assert_eq!(answer(&[]), Reply::Stderr(String::from("No operations provided")));
}

#[test]
fn capitals_and_symbols_answer_alike() {
    let expected = Reply::Stdout(String::from("0 + 5 * 3 = 15"));
    assert_eq!(answer(&["ADD", "5", "Multiply", "3"]), expected);
    assert_eq!(answer(&["+", "5", "*", "3"]), expected);
}

#[test]
fn result_is_printed_like_an_operand() {
    assert_eq!(
        answer(&["add", "1", "divide", "8"]),
        Reply::Stdout(String::from("0 + 1 / 8 = 0.125"))
    );
    assert_eq!(
        answer(&["add", "0.1", "add", "0.2"]),
        Reply::Stdout(String::from("0 + 0.1 + 0.2 = 0.30000000000000004"))
    );
    assert_eq!(
        answer(&["subtract", "2.50", "multiply", "2"]),
        Reply::Stdout(String::from("0 - 2.5 * 2 = -5"))
    );
}

#[test]
fn parse_errors_come_before_division_by_zero() {
    assert_eq!(
        answer(&["divide", "0", "foo", "1"]),
        Reply::Stderr(String::from("Invalid operation: foo"))
    );
    assert_eq!(
        answer(&["divide", "0", "add"]),
        Reply::Stderr(String::from("Missing number after add"))
    );
}

#[test]
fn later_division_by_zero_leaves_no_partial_result() {
    assert_eq!(
        answer(&["add", "1", "divide", "-0", "add", "2"]),
        Reply::Stderr(String::from("Division by zero"))
    );
}

#[test]
fn overflow_is_passed_through() {
    let huge = format!("1{}", "0".repeat(308));
    assert_eq!(
        answer(&["add", "1e308", "multiply", "10"]),
        Reply::Stdout(format!("0 + {} * 10 = inf", huge))
    );
    assert_eq!(
        answer(&["add", "inf", "subtract", "inf"]),
        Reply::Stdout(String::from("0 + inf - inf = NaN"))
    );
}
