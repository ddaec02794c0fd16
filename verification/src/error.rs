//! Errors that the kernel reports as numbers.

use vstd::prelude::*;

verus! {

/// An error that the kernel reported as a negative number.
#[derive(Debug, Clone, Copy, PartialEq, Eq, Structural)]
pub struct NumericError {
    number: isize,
}

impl NumericError {
    #[verifier::type_invariant]
    spec fn is_negative(self) -> bool {
        self.number < 0
    }

    /// The number that the kernel reported.
    pub closed spec fn code(self) -> isize {
        self.number
    }

    /// The number that the kernel reported, which is below zero.
    pub fn number(&self) -> (r: isize)
        ensures
            r == self.code(),
            r < 0,
    {
        proof {
            use_type_invariant(self);
        }
        self.number
    }
}

/// Tells an answer of the kernel from an error: a number below zero is an
/// error, any other number is the answer.
pub fn negative_to_error(value: isize) -> (r: Result<isize, NumericError>)
    ensures
        value >= 0 ==> r == Ok::<isize, NumericError>(value),
        value < 0 ==> r is Err && r->Err_0.code() == value,
{
    if value >= 0 {
        Ok(value)
    } else {
        Err(NumericError { number: value })
    }
}

} // verus!
