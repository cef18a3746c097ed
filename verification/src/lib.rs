//! A four-function integer calculator engine.
//!
//! The engine is a small state machine driven by button presses: digits,
//! operators, equals, clear-entry and all-clear. Its behaviour is defined by
//! the transition functions on [`model::State`], and every operation of
//! [`calculator::Calculator`] is proved to follow them.

pub mod arith;
pub mod calculator;
pub mod decimal;
pub mod keys;
pub mod laws;
pub mod model;

pub use crate::arith::CalcError;
pub use crate::calculator::Calculator;
pub use crate::keys::{Digit, Key, Operator};
