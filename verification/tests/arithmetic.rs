use simple_calculator::{CalcError, Digit, Operator};

#[test]
fn digits_have_their_values() {
    assert_eq!(Digit::D0.value(), 0);
    assert_eq!(Digit::D1.value(), 1);
    assert_eq!(Digit::D2.value(), 2);
    assert_eq!(Digit::D3.value(), 3);
    assert_eq!(Digit::D4.value(), 4);
    assert_eq!(Digit::D5.value(), 5);
    assert_eq!(Digit::D6.value(), 6);
    assert_eq!(Digit::D7.value(), 7);
    assert_eq!(Digit::D8.value(), 8);
    assert_eq!(Digit::D9.value(), 9);
}

#[test]
fn apply_addition() {
    assert_eq!(Operator::Addition.apply(5, 9), Ok(14));
    assert_eq!(Operator::Addition.apply(-5, 3), Ok(-2));
    assert_eq!(Operator::Addition.apply(i64::MAX, 0), Ok(i64::MAX));
    assert_eq!(Operator::Addition.apply(i64::MAX, 1), Err(CalcError::Overflow));
    assert_eq!(Operator::Addition.apply(i64::MIN, -1), Err(CalcError::Overflow));
    assert_eq!(Operator::Addition.apply(i64::MIN, i64::MAX), Ok(-1));
}

#[test]
fn apply_subtraction_takes_operands_in_order() {
    assert_eq!(Operator::Subtraction.apply(7, 6), Ok(1));
    assert_eq!(Operator::Subtraction.apply(6, 7), Ok(-1));
    assert_eq!(Operator::Subtraction.apply(-9223372036854775807, 1), Ok(i64::MIN));
    assert_eq!(Operator::Subtraction.apply(i64::MIN, 1), Err(CalcError::Overflow));
    assert_eq!(Operator::Subtraction.apply(0, i64::MIN), Err(CalcError::Overflow));
}

#[test]
fn apply_multiplication() {
    assert_eq!(Operator::Multiplication.apply(8, 2), Ok(16));
    assert_eq!(Operator::Multiplication.apply(-8, 2), Ok(-16));
    assert_eq!(Operator::Multiplication.apply(0, i64::MIN), Ok(0));
    assert_eq!(
        Operator::Multiplication.apply(4611686018427387904, 2),
        Err(CalcError::Overflow)
    );
    assert_eq!(
        Operator::Multiplication.apply(-4611686018427387904, 2),
        Ok(i64::MIN)
    );
    assert_eq!(
        Operator::Multiplication.apply(i64::MIN, -1),
        Err(CalcError::Overflow)
    );
}

#[test]
fn apply_division_rounds_toward_zero() {
    assert_eq!(Operator::Division.apply(7, 2), Ok(3));
    assert_eq!(Operator::Division.apply(-7, 2), Ok(-3));
    assert_eq!(Operator::Division.apply(7, -2), Ok(-3));
    assert_eq!(Operator::Division.apply(-7, -2), Ok(3));
    assert_eq!(Operator::Division.apply(1, 2), Ok(0));
    assert_eq!(Operator::Division.apply(-1, 2), Ok(0));
    assert_eq!(Operator::Division.apply(0, -5), Ok(0));
    assert_eq!(Operator::Division.apply(120, 2), Ok(60));
    assert_eq!(Operator::Division.apply(i64::MIN, 1), Ok(i64::MIN));
    assert_eq!(Operator::Division.apply(i64::MAX, -1), Ok(-i64::MAX));
}

#[test]
fn apply_division_by_zero() {
    assert_eq!(Operator::Division.apply(7, 0), Err(CalcError::DivisionByZero));
    assert_eq!(Operator::Division.apply(0, 0), Err(CalcError::DivisionByZero));
    assert_eq!(
        Operator::Division.apply(i64::MIN, 0),
        Err(CalcError::DivisionByZero)
    );
}

#[test]
fn apply_division_of_smallest_by_minus_one_overflows() {
    assert_eq!(Operator::Division.apply(i64::MIN, -1), Err(CalcError::Overflow));
}

#[test]
fn zero_operand_fails_only_for_division() {
    assert_eq!(Operator::Addition.apply(7, 0), Ok(7));
    assert_eq!(Operator::Subtraction.apply(7, 0), Ok(7));
    assert_eq!(Operator::Multiplication.apply(7, 0), Ok(0));
}
