use simple_calculator::{Calculator, Digit, Operator};

#[test]
fn initialize_at_zero() {
    let calc = Calculator::new();
    assert_eq!(calc.get_value(), "0");
}

#[test]
fn type_digits() {
    let mut calc = Calculator::new();
    calc.put_digit(Digit::D2).unwrap();
    assert_eq!(calc.get_value(), "2");
    calc.put_digit(Digit::D3).unwrap();
    assert_eq!(calc.get_value(), "23");
}

#[test]
fn addition() {
    let mut calc = Calculator::new();
    calc.put_digit(Digit::D5).unwrap();
    calc.put_operator(Operator::Addition).unwrap();
    calc.put_digit(Digit::D9).unwrap();
    calc.evaluate().unwrap();
    assert_eq!(calc.get_value(), "14");
}

#[test]
fn repeat_equals() {
    let mut calc = Calculator::new();
    calc.put_digit(Digit::D1).unwrap();
    calc.put_operator(Operator::Addition).unwrap();
    calc.put_digit(Digit::D4).unwrap();
    calc.evaluate().unwrap();
    assert_eq!(calc.get_value(), "5");
    calc.evaluate().unwrap();
    assert_eq!(calc.get_value(), "9");
    calc.evaluate().unwrap();
    assert_eq!(calc.get_value(), "13");
}

#[test]
fn subtraction() {
    let mut calc = Calculator::new();
    calc.put_digit(Digit::D7).unwrap();
    calc.put_operator(Operator::Subtraction).unwrap();
    calc.put_digit(Digit::D6).unwrap();
    calc.evaluate().unwrap();
    assert_eq!(calc.get_value(), "1");
    calc.evaluate().unwrap();
    assert_eq!(calc.get_value(), "-5");
    calc.evaluate().unwrap();
    assert_eq!(calc.get_value(), "-11");
}

#[test]
fn multiplication() {
    let mut calc = Calculator::new();
    calc.put_digit(Digit::D8).unwrap();
    calc.put_operator(Operator::Multiplication).unwrap();
    calc.put_digit(Digit::D2).unwrap();
    calc.evaluate().unwrap();
    assert_eq!(calc.get_value(), "16");
    calc.evaluate().unwrap();
    assert_eq!(calc.get_value(), "32");
    calc.evaluate().unwrap();
    assert_eq!(calc.get_value(), "64");
}

#[test]
fn division() {
    let mut calc = Calculator::new();
    calc.put_digit(Digit::D1).unwrap();
    calc.put_digit(Digit::D2).unwrap();
    calc.put_digit(Digit::D0).unwrap();
    calc.put_operator(Operator::Division).unwrap();
    calc.put_digit(Digit::D2).unwrap();
    calc.evaluate().unwrap();
    assert_eq!(calc.get_value(), "60");
    calc.evaluate().unwrap();
    assert_eq!(calc.get_value(), "30");
    calc.evaluate().unwrap();
    assert_eq!(calc.get_value(), "15");
}

#[test]
fn integer_division() {
    let mut calc = Calculator::new();
    calc.put_digit(Digit::D7).unwrap();
    calc.put_operator(Operator::Division).unwrap();
    calc.put_digit(Digit::D2).unwrap();
    calc.evaluate().unwrap();
    assert_eq!(calc.get_value(), "3");
}

#[test]
fn clear_all() {
    let mut calc = Calculator::new();
    calc.put_digit(Digit::D1).unwrap();
    calc.put_operator(Operator::Addition).unwrap();
    calc.put_digit(Digit::D2).unwrap();
    calc.clear_all();
    assert_eq!(calc.get_value(), "0");
    assert_eq!(calc.held_value(), None);
    assert_eq!(calc.op_pressed(), false);
    assert_eq!(calc.last_op(), None);
    assert_eq!(calc.last_eval(), None);
}

#[test]
fn clear_entry() {
    let mut calc = Calculator::new();
    calc.put_digit(Digit::D4).unwrap();
    calc.put_operator(Operator::Multiplication).unwrap();
    calc.put_digit(Digit::D1).unwrap();
    calc.put_digit(Digit::D3).unwrap();
    calc.clear_entry();
    calc.put_digit(Digit::D1).unwrap();
    calc.put_digit(Digit::D2).unwrap();
    calc.evaluate().unwrap();
    assert_eq!(calc.get_value(), "48");
}

#[test]
fn repeated_addition() {
    let mut calc = Calculator::new();
    for _ in 0..5 {
        calc.put_digit(Digit::D1).unwrap();
        calc.put_operator(Operator::Addition).unwrap();
    }
    calc.put_digit(Digit::D1).unwrap();
    calc.evaluate().unwrap();
    assert_eq!(calc.get_value(), "6");
}

#[test]
fn combined_operations() {
    let mut calc = Calculator::new();
    calc.put_digit(Digit::D5).unwrap();
    calc.put_operator(Operator::Addition).unwrap();
    calc.put_digit(Digit::D5).unwrap();
    calc.put_operator(Operator::Multiplication).unwrap();
    assert_eq!(calc.get_value(), "10");
    calc.put_digit(Digit::D6).unwrap();
    calc.put_operator(Operator::Division).unwrap();
    assert_eq!(calc.get_value(), "60");
    calc.put_digit(Digit::D1).unwrap();
    calc.put_digit(Digit::D5).unwrap();
    calc.put_operator(Operator::Subtraction).unwrap();
    assert_eq!(calc.get_value(), "4");
    calc.put_digit(Digit::D3).unwrap();
    calc.evaluate().unwrap();
    assert_eq!(calc.get_value(), "1");
}

#[test]
fn equals_after_operator() {
    let mut calc = Calculator::new();
    calc.put_digit(Digit::D5).unwrap();
    calc.put_operator(Operator::Addition).unwrap();
    calc.evaluate().unwrap();
    calc.evaluate().unwrap();
    assert_eq!(calc.get_value(), "5");
}

#[test]
fn clear_entry_clears_all_after_eval() {
    let mut calc = Calculator::new();
    calc.put_digit(Digit::D1).unwrap();
    calc.put_operator(Operator::Addition).unwrap();
    calc.put_digit(Digit::D1).unwrap();
    calc.evaluate().unwrap();
    calc.clear_entry();
    assert_eq!(calc.get_value(), "0");
    assert_eq!(calc.held_value(), None);
    assert_eq!(calc.op_pressed(), false);
    assert_eq!(calc.last_op(), None);
    assert_eq!(calc.last_eval(), None);
}
