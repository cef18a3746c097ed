//! The calculator as a state machine over mathematical integers.
//!
//! [`State`] is what can be observed of a calculator, and each key has a
//! transition function on it. A transition that cannot be carried out (a
//! division by zero, a result or an entry that does not fit in 64 bits) is an
//! `Err`, and the machine then stays in the state it was in.

use vstd::prelude::*;
use crate::arith::{representable, CalcError};
use crate::keys::{Digit, Key, Operator};

verus! {

/// The observable state of a calculator.
pub struct State {
    /// The number on the display; the right-hand operand while an operation
    /// is pending.
    pub value: int,
    /// The left-hand operand of the pending operation, taken from the display
    /// when the first digit of the right-hand operand is typed.
    pub held_value: Option<int>,
    /// The operator that awaits application.
    pub last_op: Option<Operator>,
    /// Whether an operator was chosen and no digit has been typed since.
    pub op_pressed: bool,
    /// The right-hand operand and the operator of the latest evaluation, kept
    /// so that a further equals press can repeat it.
    pub last_eval: Option<(int, Operator)>,
}

impl State {
    /// The state of a calculator that has just been switched on or cleared.
    pub open spec fn neutral() -> State {
        State { value: 0, held_value: None, last_op: None, op_pressed: false, last_eval: None }
    }

    /// What holds of every state that the keys can reach from the neutral
    /// one: all numbers fit in 64 bits; right after an operator key there is
    /// a pending operator and no left-hand operand yet; otherwise an operator
    /// is pending exactly when its left-hand operand is held; and while an
    /// evaluation can be repeated nothing is pending.
    pub open spec fn wf(self) -> bool {
        &&& representable(self.value)
        &&& (self.held_value matches Some(held) ==> representable(held))
        &&& (self.last_eval matches Some((operand, _)) ==> representable(operand))
        &&& (self.op_pressed ==> self.last_op is Some && self.held_value is None)
        &&& (!self.op_pressed ==> (self.last_op is Some <==> self.held_value is Some))
        &&& (self.last_eval is Some ==> self.last_op is None && !self.op_pressed)
    }

    /// The number that the next digit is appended to: the display, or zero
    /// when the digit starts a new operand.
    pub open spec fn entry(self) -> int {
        if self.op_pressed {
            0
        } else {
            self.value
        }
    }

    /// A digit key: the digit is appended to the operand being entered. The
    /// first digit after an operator key moves the display into the held
    /// operand and starts from zero. Fails with `Overflow` when the longer
    /// number does not fit.
    pub open spec fn put_digit(self, digit: Digit) -> Result<State, CalcError> {
        let value = self.entry() * 10 + digit.numeral();
        if representable(value) {
            Ok(
                State {
                    value,
                    held_value: if self.op_pressed {
                        Some(self.value)
                    } else {
                        self.held_value
                    },
                    last_op: self.last_op,
                    op_pressed: false,
                    last_eval: None,
                },
            )
        } else {
            Err(CalcError::Overflow)
        }
    }

    /// Applies the pending operator to the held operand and the display, in
    /// that order, and shows the result. Where no operator or no held operand
    /// is present the display stays. Either way nothing is pending afterwards.
    pub open spec fn perform_calculation(self) -> Result<State, CalcError> {
        match (self.last_op, self.held_value) {
            (Some(op), Some(held)) => match op.outcome(held, self.value) {
                Ok(value) => Ok(State { value, held_value: None, last_op: None, ..self }),
                Err(e) => Err(e),
            },
            _ => Ok(State { held_value: None, last_op: None, ..self }),
        }
    }

    /// An operator key: a pending operation whose right-hand operand has
    /// been typed is carried out first, then `op` becomes the pending
    /// operator.
    pub open spec fn put_operator(self, op: Operator) -> Result<State, CalcError> {
        let before = State { last_eval: None, ..self };
        let applied = if self.last_op is Some && !self.op_pressed {
            before.perform_calculation()
        } else {
            Ok(before)
        };
        match applied {
            Ok(after) => Ok(State { last_op: Some(op), op_pressed: true, ..after }),
            Err(e) => Err(e),
        }
    }

    /// The state in which the equals key carries out the calculation: with an
    /// earlier evaluation to repeat, the display becomes the left-hand
    /// operand of the remembered operation; otherwise the pending operation,
    /// if there is one, is remembered for later repetition.
    pub open spec fn prepared(self) -> State {
        match self.last_eval {
            Some((operand, op)) => State {
                value: operand,
                held_value: Some(self.value),
                last_op: Some(op),
                ..self
            },
            None => match self.last_op {
                Some(op) => State { last_eval: Some((self.value, op)), ..self },
                None => self,
            },
        }
    }

    /// The equals key. Right after an operator key it does nothing.
    pub open spec fn evaluate(self) -> Result<State, CalcError> {
        if self.op_pressed {
            Ok(self)
        } else {
            self.prepared().perform_calculation()
        }
    }

    /// The all-clear key.
    pub open spec fn clear_all(self) -> State {
        State::neutral()
    }

    /// The clear-entry key: after an evaluation it clears everything,
    /// otherwise only the display.
    pub open spec fn clear_entry(self) -> State {
        if self.last_eval is Some {
            State::neutral()
        } else {
            State { value: 0, ..self }
        }
    }

    /// What pressing `key` leads to.
    pub open spec fn press(self, key: Key) -> Result<State, CalcError> {
        match key {
            Key::Digit(digit) => self.put_digit(digit),
            Key::Operator(op) => self.put_operator(op),
            Key::Equals => self.evaluate(),
            Key::ClearEntry => Ok(self.clear_entry()),
            Key::AllClear => Ok(self.clear_all()),
        }
    }

    /// The state after a key press with the given outcome: the new state on
    /// success, the unchanged state on failure.
    pub open spec fn after(self, outcome: Result<State, CalcError>) -> State {
        match outcome {
            Ok(next) => next,
            Err(_) => self,
        }
    }

    /// The state after pressing `keys` one after the other, from first to
    /// last.
    pub open spec fn run(self, keys: Seq<Key>) -> State
        decreases keys.len(),
    {
        if keys.len() == 0 {
            self
        } else {
            let before = self.run(keys.drop_last());
            before.after(before.press(keys.last()))
        }
    }

    /// What typing `digits` one after the other leads to. Typing stops at
    /// the first digit that does not fit.
    pub open spec fn put_digits(self, digits: Seq<Digit>) -> Result<State, CalcError>
        decreases digits.len(),
    {
        if digits.len() == 0 {
            Ok(self)
        } else {
            match self.put_digits(digits.drop_last()) {
                Ok(before) => before.put_digit(digits.last()),
                Err(e) => Err(e),
            }
        }
    }
}

} // verus!
