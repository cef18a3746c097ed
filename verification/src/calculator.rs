//! The calculator engine.

use vstd::prelude::*;
use crate::arith::CalcError;
use crate::decimal::{decimal, format_decimal};
use crate::keys::{Digit, Key, Operator};
use crate::model::State;

verus! {

/// A four-function calculator on signed 64-bit integers.
///
/// A key press that cannot be carried out returns an error and leaves the
/// calculator exactly as it was: the display keeps its number, and whatever
/// was pending stays pending.
pub struct Calculator {
    /// Value displayed on screen.
    value: i64,
    /// While the right-hand operand is typed, the left-hand operand.
    held_value: Option<i64>,
    /// The operator that awaits application, if any.
    last_op: Option<Operator>,
    /// Whether the last key pressed was an operator.
    op_pressed: bool,
    /// After an evaluation, the right-hand operand and operator that it
    /// applied, for repetition by a further equals press.
    last_eval: Option<(i64, Operator)>,
}

impl View for Calculator {
    type V = State;

    closed spec fn view(&self) -> State {
        State {
            value: self.value as int,
            held_value: match self.held_value {
                Some(held) => Some(held as int),
                None => None,
            },
            last_op: self.last_op,
            op_pressed: self.op_pressed,
            last_eval: match self.last_eval {
                Some((operand, op)) => Some((operand as int, op)),
                None => None,
            },
        }
    }
}

impl Calculator {
    /// Holds of every calculator there is: its state is well-formed.
    #[verifier::type_invariant]
    pub open spec fn well_formed(self) -> bool {
        self@.wf()
    }

    /// A calculator in the neutral state.
    pub fn new() -> (calc: Self)
        ensures
            calc@ == State::neutral(),
            calc@.wf(),
    {
        Self { value: 0, held_value: None, last_op: None, op_pressed: false, last_eval: None }
    }

    /// The displayed number in decimal notation.
    pub fn get_value(&self) -> (shown: String)
        ensures
            shown@ == decimal(self@.value),
    {
        format_decimal(self.value)
    }

    /// Appends a digit to the operand being entered.
    pub fn put_digit(&mut self, digit: Digit) -> (r: Result<(), CalcError>)
        ensures
            match old(self)@.put_digit(digit) {
                Ok(next) => r is Ok && final(self)@ == next,
                Err(e) => r == Err::<(), CalcError>(e) && final(self)@ == old(self)@,
            },
            final(self)@.wf(),
    {
        proof {
            use_type_invariant(&*self);
        }
        let entry: i64 = if self.op_pressed {
            0
        } else {
            self.value
        };
        let value: i128 = (entry as i128) * 10 + (digit.value() as i128);
        if value < i64::MIN as i128 || value > i64::MAX as i128 {
            return Err(CalcError::Overflow);
        }
        let held_value = if self.op_pressed {
            Some(self.value)
        } else {
            self.held_value
        };
        *self = Self {
            value: value as i64,
            held_value,
            last_op: self.last_op,
            op_pressed: false,
            last_eval: None,
        };
        Ok(())
    }

    /// Chooses `op` as the pending operator. Where an operation is pending
    /// and its right-hand operand has been typed, that operation is carried
    /// out first and may fail.
    pub fn put_operator(&mut self, op: Operator) -> (r: Result<(), CalcError>)
        ensures
            match old(self)@.put_operator(op) {
                Ok(next) => r is Ok && final(self)@ == next,
                Err(e) => r == Err::<(), CalcError>(e) && final(self)@ == old(self)@,
            },
            final(self)@.wf(),
    {
        proof {
            use_type_invariant(&*self);
        }
        if self.last_op.is_some() && !self.op_pressed {
            match self.perform_calculation() {
                Ok(()) => {},
                Err(e) => {
                    return Err(e);
                },
            }
        }
        *self = Self {
            value: self.value,
            held_value: self.held_value,
            last_op: Some(op),
            op_pressed: true,
            last_eval: None,
        };
        Ok(())
    }

    /// Carries out the pending operation on the held operand and the
    /// displayed one, and leaves nothing pending. It is for the moment when
    /// the right-hand operand stands on the display, not for the moment
    /// right after an operator key.
    fn perform_calculation(&mut self) -> (r: Result<(), CalcError>)
        requires
            !old(self)@.op_pressed,
        ensures
            match old(self)@.perform_calculation() {
                Ok(next) => r is Ok && final(self)@ == next,
                Err(e) => r == Err::<(), CalcError>(e) && final(self)@ == old(self)@,
            },
    {
        proof {
            use_type_invariant(&*self);
        }
        let value = match (self.last_op, self.held_value) {
            (Some(op), Some(held)) => match op.apply(held, self.value) {
                Ok(value) => value,
                Err(e) => {
                    return Err(e);
                },
            },
            _ => self.value,
        };
        *self = Self {
            value,
            held_value: None,
            last_op: None,
            op_pressed: self.op_pressed,
            last_eval: self.last_eval,
        };
        Ok(())
    }

    /// The equals key: carries out the pending operation, or repeats the
    /// latest evaluation on the displayed number.
    pub fn evaluate(&mut self) -> (r: Result<(), CalcError>)
        ensures
            match old(self)@.evaluate() {
                Ok(next) => r is Ok && final(self)@ == next,
                Err(e) => r == Err::<(), CalcError>(e) && final(self)@ == old(self)@,
            },
            final(self)@.wf(),
    {
        proof {
            use_type_invariant(&*self);
        }
        if self.op_pressed {
            return Ok(());
        }
        match self.last_eval {
            Some((operand, op)) => match op.apply(self.value, operand) {
                Ok(value) => {
                    self.value = value;
                    Ok(())
                },
                Err(e) => Err(e),
            },
            None => {
                let repeatable = match self.last_op {
                    Some(op) => Some((self.value, op)),
                    None => None,
                };
                match self.perform_calculation() {
                    Ok(()) => {
                        self.last_eval = repeatable;
                        Ok(())
                    },
                    Err(e) => Err(e),
                }
            },
        }
    }

    /// Returns the calculator to the neutral state.
    pub fn clear_all(&mut self)
        ensures
            final(self)@ == old(self)@.clear_all(),
            final(self)@.wf(),
    {
        *self = Self::new();
    }

    /// Clears the displayed number; after an evaluation, clears everything.
    pub fn clear_entry(&mut self)
        ensures
            final(self)@ == old(self)@.clear_entry(),
            final(self)@.wf(),
    {
        proof {
            use_type_invariant(&*self);
        }
        if self.last_eval.is_some() {
            self.clear_all();
        } else {
            self.value = 0;
        }
    }

    /// Presses `key`.
    pub fn press(&mut self, key: Key) -> (r: Result<(), CalcError>)
        ensures
            match old(self)@.press(key) {
                Ok(next) => r is Ok && final(self)@ == next,
                Err(e) => r == Err::<(), CalcError>(e) && final(self)@ == old(self)@,
            },
            final(self)@.wf(),
    {
        match key {
            Key::Digit(digit) => self.put_digit(digit),
            Key::Operator(op) => self.put_operator(op),
            Key::Equals => self.evaluate(),
            Key::ClearEntry => {
                self.clear_entry();
                Ok(())
            },
            Key::AllClear => {
                self.clear_all();
                Ok(())
            },
        }
    }

    /// The left-hand operand of the pending operation, once the right-hand
    /// operand is being typed.
    pub fn held_value(&self) -> (held: Option<i64>)
        ensures
            match held {
                Some(h) => self@.held_value == Some(h as int),
                None => self@.held_value is None,
            },
    {
        self.held_value
    }

    /// The operator that awaits application.
    pub fn last_op(&self) -> (op: Option<Operator>)
        ensures
            op == self@.last_op,
    {
        self.last_op
    }

    /// Whether the last key pressed was an operator.
    pub fn op_pressed(&self) -> (pressed: bool)
        ensures
            pressed == self@.op_pressed,
    {
        self.op_pressed
    }

    /// The right-hand operand and operator that a further equals press
    /// would apply again.
    pub fn last_eval(&self) -> (eval: Option<(i64, Operator)>)
        ensures
            match eval {
                Some((operand, op)) => self@.last_eval == Some((operand as int, op)),
                None => self@.last_eval is None,
            },
    {
        self.last_eval
    }
}

} // verus!
