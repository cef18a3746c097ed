//! Exact integer arithmetic with explicit failure.
//!
//! Every operation is defined on mathematical integers first. A result is
//! handed out only when it can be stored in an `i64`; otherwise the operation
//! fails with a [`CalcError`] and nothing wraps around.

use vstd::prelude::*;
use vstd::arithmetic::div_mod::lemma_fundamental_div_mod;
use crate::keys::Operator;

verus! {

/// Why an operation could not produce a result.
#[derive(Clone, Copy, Debug, PartialEq, Eq, Structural)]
pub enum CalcError {
    /// The right-hand operand of a division was zero.
    DivisionByZero,
    /// The exact result cannot be stored in a signed 64-bit integer.
    Overflow,
}

/// Whether `x` can be stored in a signed 64-bit integer.
pub open spec fn representable(x: int) -> bool {
    i64::MIN <= x <= i64::MAX
}

/// The distance of `x` from zero.
pub open spec fn magnitude(x: int) -> int {
    if x < 0 {
        -x
    } else {
        x
    }
}

/// The quotient of `a` by `b`, rounded toward zero: the quotient of the
/// magnitudes, negative exactly when the operands differ in sign.
pub open spec fn truncated_quotient(a: int, b: int) -> int
    recommends
        b != 0,
{
    if a >= 0 && b > 0 {
        a / b
    } else if a >= 0 {
        -(a / (-b))
    } else if b > 0 {
        -((-a) / b)
    } else {
        (-a) / (-b)
    }
}

impl Operator {
    /// The exact result of the operation on mathematical integers.
    /// For a division, `rhs` is meant to be non-zero.
    pub open spec fn exact(self, lhs: int, rhs: int) -> int {
        match self {
            Operator::Addition => lhs + rhs,
            Operator::Subtraction => lhs - rhs,
            Operator::Multiplication => lhs * rhs,
            Operator::Division => truncated_quotient(lhs, rhs),
        }
    }

    /// What applying the operator yields: the exact result where it is
    /// defined and representable, and otherwise the reason why not.
    /// A zero divisor is reported before anything else.
    pub open spec fn outcome(self, lhs: int, rhs: int) -> Result<int, CalcError> {
        if self == Operator::Division && rhs == 0 {
            Err(CalcError::DivisionByZero)
        } else if representable(self.exact(lhs, rhs)) {
            Ok(self.exact(lhs, rhs))
        } else {
            Err(CalcError::Overflow)
        }
    }

    /// Applies the operator to `lhs` and `rhs`, in that order.
    pub fn apply(self, lhs: i64, rhs: i64) -> (r: Result<i64, CalcError>)
        ensures
            match self.outcome(lhs as int, rhs as int) {
                Ok(v) => r matches Ok(w) && w == v,
                Err(e) => r == Err::<i64, CalcError>(e),
            },
    {
        if self == Operator::Division && rhs == 0 {
            return Err(CalcError::DivisionByZero);
        }
        let computed = match self {
            Operator::Addition => lhs.checked_add(rhs),
            Operator::Subtraction => lhs.checked_sub(rhs),
            Operator::Multiplication => lhs.checked_mul(rhs),
            Operator::Division => lhs.checked_div(rhs),
        };
        match computed {
            Some(v) => Ok(v),
            None => Err(CalcError::Overflow),
        }
    }
}

/// Truncated division rounds toward zero: the quotient times the divisor
/// falls short of the dividend by a remainder that is smaller in magnitude
/// than the divisor and never has the sign opposite to the dividend's.
pub proof fn lemma_truncated_quotient_rounds_toward_zero(a: int, b: int)
    requires
        b != 0,
    ensures
        magnitude(a - truncated_quotient(a, b) * b) < magnitude(b),
        a >= 0 ==> a - truncated_quotient(a, b) * b >= 0,
        a <= 0 ==> a - truncated_quotient(a, b) * b <= 0,
        magnitude(truncated_quotient(a, b)) == magnitude(a) / magnitude(b),
        (a < 0) == (b < 0) ==> truncated_quotient(a, b) >= 0,
        (a < 0) != (b < 0) ==> truncated_quotient(a, b) <= 0,
{
    let m = magnitude(a);
    let d = magnitude(b);
    let q = m / d;
    lemma_fundamental_div_mod(m, d);
    assert(0 <= m % d < d);
    assert(q >= 0) by (nonlinear_arith)
        requires
            q == m / d,
            m >= 0,
            d > 0,
    ;
    assert(q * (-b) == -(q * b) && (-q) * b == -(q * b) && (-q) * (-b) == q * b)
        by (nonlinear_arith);
    assert(d * q == q * d) by (nonlinear_arith);
}

/// Rounding toward zero determines the quotient: a number whose product
/// with the divisor falls short of the dividend by such a remainder is the
/// truncated quotient.
pub proof fn lemma_truncated_quotient_unique(a: int, b: int, q: int)
    requires
        b != 0,
        magnitude(a - q * b) < magnitude(b),
        a >= 0 ==> a - q * b >= 0,
        a <= 0 ==> a - q * b <= 0,
    ensures
        truncated_quotient(a, b) == q,
{
    let t = truncated_quotient(a, b);
    lemma_truncated_quotient_rounds_toward_zero(a, b);
    let gap = (a - q * b) - (a - t * b);
    assert((t - q) * b == gap) by (nonlinear_arith)
        requires
            gap == (a - q * b) - (a - t * b),
    ;
    assert(magnitude(gap) < magnitude(b));
    assert(t == q) by (nonlinear_arith)
        requires
            (t - q) * b == gap,
            -b < gap < b || b < gap < -b,
            b != 0,
    ;
}

} // verus!
