//! The keys of the calculator.

use vstd::prelude::*;

verus! {

/// One of the ten decimal digits.
#[derive(Clone, Copy, Debug, PartialEq, Eq, Structural)]
pub enum Digit {
    D0,
    D1,
    D2,
    D3,
    D4,
    D5,
    D6,
    D7,
    D8,
    D9,
}

impl Digit {
    /// The number that the digit stands for.
    pub open spec fn numeral(self) -> int {
        match self {
            Digit::D0 => 0,
            Digit::D1 => 1,
            Digit::D2 => 2,
            Digit::D3 => 3,
            Digit::D4 => 4,
            Digit::D5 => 5,
            Digit::D6 => 6,
            Digit::D7 => 7,
            Digit::D8 => 8,
            Digit::D9 => 9,
        }
    }

    /// The number that the digit stands for, between 0 and 9.
    pub fn value(self) -> (v: i64)
        ensures
            v == self.numeral(),
            0 <= v <= 9,
    {
        match self {
            Digit::D0 => 0,
            Digit::D1 => 1,
            Digit::D2 => 2,
            Digit::D3 => 3,
            Digit::D4 => 4,
            Digit::D5 => 5,
            Digit::D6 => 6,
            Digit::D7 => 7,
            Digit::D8 => 8,
            Digit::D9 => 9,
        }
    }
}

/// One of the four binary operations.
#[derive(Clone, Copy, Debug, PartialEq, Eq, Structural)]
pub enum Operator {
    Addition,
    Subtraction,
    Multiplication,
    Division,
}

/// A key of the calculator's keyboard.
#[derive(Clone, Copy, Debug, PartialEq, Eq, Structural)]
pub enum Key {
    /// A digit key.
    Digit(Digit),
    /// One of the four operator keys.
    Operator(Operator),
    /// The equals key.
    Equals,
    /// The clear-entry key.
    ClearEntry,
    /// The all-clear key.
    AllClear,
}

} // verus!
