//! What holds of the calculator in general.
//!
//! Each statement is about the transition functions of [`State`], which the
//! operations of the engine are proved to follow.

use vstd::prelude::*;
use vstd::arithmetic::power::{lemma_pow0, lemma_pow1, pow};
use crate::arith::{representable, CalcError};
use crate::decimal::decimal;
use crate::keys::{Digit, Key, Operator};
use crate::model::State;

verus! {

/// The number that a row of digits writes in base ten: the sum of each
/// digit times ten to the power of the number of digits behind it.
pub open spec fn positional_value(digits: Seq<Digit>) -> int
    decreases digits.len(),
{
    if digits.len() == 0 {
        0
    } else {
        digits.first().numeral() * pow(10, (digits.len() - 1) as nat) + positional_value(
            digits.drop_first(),
        )
    }
}

/// One more digit at the end multiplies the value by ten and adds the digit.
pub proof fn lemma_positional_value_push(digits: Seq<Digit>, digit: Digit)
    ensures
        positional_value(digits.push(digit)) == 10 * positional_value(digits) + digit.numeral(),
    decreases digits.len(),
{
    let longer = digits.push(digit);
    if digits.len() == 0 {
        lemma_pow0(10);
        assert(longer.drop_first() =~= Seq::<Digit>::empty());
        assert(positional_value(longer.drop_first()) == 0);
    } else {
        lemma_positional_value_push(digits.drop_first(), digit);
        assert(longer.drop_first() =~= digits.drop_first().push(digit));
        let high = pow(10, (digits.len() - 1) as nat);
        assert(pow(10, digits.len()) == 10 * high) by {
            reveal(pow);
        }
        assert(digits.first().numeral() * (10 * high) == 10 * (digits.first().numeral() * high))
            by (nonlinear_arith);
    }
}

/// The neutral state satisfies the invariant.
pub proof fn lemma_neutral_wf()
    ensures
        State::neutral().wf(),
{
}

/// No key leads out of the well-formed states, whether it succeeds or fails.
pub proof fn lemma_press_preserves_wf(s: State, key: Key)
    requires
        s.wf(),
    ensures
        s.after(s.press(key)).wf(),
{
}

/// Every state that a row of keys reaches from the neutral state is
/// well-formed.
pub proof fn lemma_reachable_wf(keys: Seq<Key>)
    ensures
        State::neutral().run(keys).wf(),
    decreases keys.len(),
{
    if keys.len() > 0 {
        lemma_reachable_wf(keys.drop_last());
        lemma_press_preserves_wf(State::neutral().run(keys.drop_last()), keys.last());
    }
}

/// A left-hand operand comes to be held in one way only: by the first digit
/// typed after an operator key, which takes it from the display.
pub proof fn lemma_held_value_origin(s: State, key: Key)
    requires
        s.wf(),
        s.held_value is None,
        s.after(s.press(key)).held_value is Some,
    ensures
        key is Digit,
        s.op_pressed,
        s.after(s.press(key)).held_value == Some(s.value),
        !s.after(s.press(key)).op_pressed,
{
}

/// An evaluation can be repeated only right after the equals key: every
/// other key that is carried out, a digit or an operator among them, leaves
/// nothing to repeat.
pub proof fn lemma_last_eval_origin(s: State, key: Key)
    requires
        s.wf(),
        s.press(key) is Ok,
        s.press(key)->Ok_0.last_eval is Some,
    ensures
        key == Key::Equals,
{
}

/// A freshly made or cleared calculator shows `0`.
pub proof fn lemma_neutral_shows_zero()
    ensures
        decimal(State::neutral().value) == seq!['0'],
{
}

/// Digits typed one after the other are read as one number in base ten,
/// written behind what the entry started from: the displayed number, or
/// nothing where the digits begin a new operand or the display is zero.
pub proof fn lemma_digit_entry(s: State, digits: Seq<Digit>)
    requires
        digits.len() > 0,
        s.put_digits(digits) is Ok,
    ensures
        s.put_digits(digits)->Ok_0.value == s.entry() * pow(10, digits.len()) + positional_value(
            digits,
        ),
        !s.put_digits(digits)->Ok_0.op_pressed,
    decreases digits.len(),
{
    let front = digits.drop_last();
    assert(digits =~= front.push(digits.last()));
    lemma_positional_value_push(front, digits.last());
    if front.len() == 0 {
        lemma_pow1(10);
        assert(positional_value(front) == 0);
        assert(s.put_digits(front) == Ok::<State, CalcError>(s));
    } else {
        lemma_digit_entry(s, front);
        let before = s.put_digits(front)->Ok_0;
        assert(s.put_digits(digits) == before.put_digit(digits.last()));
        let low = pow(10, front.len());
        assert(pow(10, digits.len()) == 10 * low) by {
            reveal(pow);
        }
        assert((s.entry() * low + positional_value(front)) * 10 == s.entry() * (10 * low) + 10
            * positional_value(front)) by (nonlinear_arith);
    }
}

/// Digit concatenation: where the entry starts from zero, the digits typed
/// yield exactly the number that they write.
pub proof fn lemma_digit_concatenation(s: State, digits: Seq<Digit>)
    requires
        s.value == 0 || (s.op_pressed && digits.len() > 0),
        s.put_digits(digits) is Ok,
    ensures
        s.put_digits(digits)->Ok_0.value == positional_value(digits),
{
    if digits.len() > 0 {
        lemma_digit_entry(s, digits);
        assert(0 * pow(10, digits.len()) == 0);
    }
}

/// Right after an operator key the equals key changes nothing.
pub proof fn lemma_equals_after_operator(s: State)
    requires
        s.op_pressed,
    ensures
        s.evaluate() == Ok::<State, CalcError>(s),
{
}

/// The equals key on a pending operation whose right-hand operand has been
/// typed shows the result and remembers operand and operator.
pub proof fn lemma_equals_applies_pending(s: State, op: Operator, held: int)
    requires
        s.wf(),
        !s.op_pressed,
        s.last_op == Some(op),
        s.held_value == Some(held),
    ensures
        s.evaluate() == match op.outcome(held, s.value) {
            Ok(value) => Ok(
                State {
                    value,
                    held_value: None,
                    last_op: None,
                    op_pressed: false,
                    last_eval: Some((s.value, op)),
                },
            ),
            Err(e) => Err(e),
        },
{
}

/// Repeat-equals: after an evaluation, the equals key applies the remembered
/// operator to the displayed number and the remembered right-hand operand,
/// and changes nothing but the display.
pub proof fn lemma_repeat_equals(s: State, operand: int, op: Operator)
    requires
        s.wf(),
        s.last_eval == Some((operand, op)),
    ensures
        s.evaluate() == match op.outcome(s.value, operand) {
            Ok(value) => Ok(State { value, ..s }),
            Err(e) => Err(e),
        },
{
}

/// Chained evaluation: an operator key on a pending operation whose
/// right-hand operand has been typed carries that operation out, left to
/// right, before the new operator becomes pending.
pub proof fn lemma_operator_applies_pending(s: State, pending: Operator, held: int, op: Operator)
    requires
        s.wf(),
        !s.op_pressed,
        s.last_op == Some(pending),
        s.held_value == Some(held),
    ensures
        s.put_operator(op) == match pending.outcome(held, s.value) {
            Ok(value) => Ok(
                State {
                    value,
                    held_value: None,
                    last_op: Some(op),
                    op_pressed: true,
                    last_eval: None,
                },
            ),
            Err(e) => Err(e),
        },
{
}

/// All-clear after any row of keys, from any state, gives the neutral state,
/// which shows `0`.
pub proof fn lemma_clear_all_resets(s: State, keys: Seq<Key>)
    ensures
        s.run(keys).clear_all() == State::neutral(),
        s.run(keys.push(Key::AllClear)) == State::neutral(),
        decimal(s.run(keys.push(Key::AllClear)).value) == seq!['0'],
{
    assert(keys.push(Key::AllClear).drop_last() =~= keys);
}

/// After an evaluation, clear-entry does what all-clear does.
pub proof fn lemma_clear_entry_after_evaluation(s: State)
    requires
        s.last_eval is Some,
    ensures
        s.clear_entry() == s.clear_all(),
{
}

/// Without an evaluation to repeat, clear-entry sets the display to zero
/// and keeps the pending operator and the held operand.
pub proof fn lemma_clear_entry_keeps_pending(s: State)
    requires
        s.last_eval is None,
    ensures
        s.clear_entry() == (State { value: 0, ..s }),
{
}

/// A pending division by a displayed zero is reported as `DivisionByZero`,
/// and a pending operation whose exact result does not fit as `Overflow`,
/// by the equals key and by an operator key alike.
pub proof fn lemma_failures_reported(s: State, pending: Operator, held: int, op: Operator)
    requires
        s.wf(),
        !s.op_pressed,
        s.last_op == Some(pending),
        s.held_value == Some(held),
    ensures
        pending == Operator::Division && s.value == 0 ==> s.evaluate() == Err::<State, CalcError>(
            CalcError::DivisionByZero,
        ) && s.put_operator(op) == Err::<State, CalcError>(CalcError::DivisionByZero),
        !(pending == Operator::Division && s.value == 0) && !representable(
            pending.exact(held, s.value),
        ) ==> s.evaluate() == Err::<State, CalcError>(CalcError::Overflow) && s.put_operator(op)
            == Err::<State, CalcError>(CalcError::Overflow),
        !(pending == Operator::Division && s.value == 0) && representable(
            pending.exact(held, s.value),
        ) ==> s.evaluate() is Ok && s.put_operator(op) is Ok,
{
}

/// A digit is refused with `Overflow` exactly when the longer number does
/// not fit, and nothing else makes a digit key fail.
pub proof fn lemma_digit_failure(s: State, digit: Digit)
    ensures
        s.put_digit(digit) is Err <==> !representable(s.entry() * 10 + digit.numeral()),
        s.put_digit(digit) is Err ==> s.put_digit(digit) == Err::<State, CalcError>(
            CalcError::Overflow,
        ),
{
}

/// A key that fails leaves the state as it was, and all-clear still leads
/// back to the neutral state.
pub proof fn lemma_failure_recoverable(s: State, key: Key)
    requires
        s.press(key) is Err,
    ensures
        s.after(s.press(key)) == s,
        s.after(s.press(key)).clear_all() == State::neutral(),
        s.run(seq![key, Key::AllClear]) == State::neutral(),
{
    let keys = seq![key, Key::AllClear];
    assert(keys.drop_last() =~= seq![key]);
}

} // verus!
