//! Failure kinds surfaced by signing and proof-of-knowledge operations.
use vstd::prelude::*;

verus! {

/// Structural failures reported to the caller. Cryptographic failure of a
/// verification is reported as a `false` result, never as an error.
#[derive(Clone, Debug, PartialEq, Eq)]
pub enum PSError {
    /// The verification key holds differing numbers of `Y` and `Y_tilde` points.
    InvalidVerkey { y: usize, y_tilde: usize },
    /// A message vector's length differs from the number of messages the keys support.
    UnsupportedNoOfMessages { expected: usize, given: usize },
    /// A proof-of-knowledge step was given differing numbers of bases and exponents.
    UnequalNoOfBasesExponents { bases: usize, exponents: usize },
    /// Some other precondition was violated; carries a short description.
    GeneralError { msg: String },
}

} // verus!
