//! Failure conditions of the commitment scheme.

use vstd::prelude::*;

verus! {

/// Everything that can go wrong in this library.
#[derive(Clone, Copy, Debug, PartialEq, Eq, Structural)]
pub enum Error {
    /// Two vectors that are paired element by element have different lengths.
    LengthMismatch,
    /// The polynomial is not given by its dense list of evaluations.
    InvalidPolynomialForm,
    /// The blinder drawn by the verifier was zero and has no inverse.
    CouldntInvertD,
    /// The bytes are not the encoding of a value.
    SerializationError,
}

} // verus!
