//! Which operator of a matrix a kernel applies.
use vstd::prelude::*;

verus! {

/// The engine's code for no transposition (`'N'`).
pub const TRANSPOSITION_N: i32 = 0x4E;
/// The engine's code for transposition (`'T'`).
pub const TRANSPOSITION_T: i32 = 0x54;
/// The engine's code for conjugate transposition (`'C'`).
pub const TRANSPOSITION_C: i32 = 0x43;

/// `A`, its transpose, or its conjugate transpose.
#[derive(Debug, Clone, Copy, PartialEq, Eq, Hash, Structural)]
pub enum Transpose {
    NoTranspose,
    Transpose,
    ConjugateTranspose,
}

impl Default for Transpose {
    /// The matrix is used as it is unless a call asks otherwise.
    fn default() -> (r: Self)
        ensures
            r == Transpose::NoTranspose,
    {
        Transpose::NoTranspose
    }
}

impl Transpose {
    /// The engine's code of this mode.
    pub open spec fn spec_code(&self) -> i32 {
        match self {
            Transpose::NoTranspose => TRANSPOSITION_N,
            Transpose::Transpose => TRANSPOSITION_T,
            Transpose::ConjugateTranspose => TRANSPOSITION_C,
        }
    }

    pub fn code(&self) -> (r: i32)
        ensures
            r == self.spec_code(),
    {
        match self {
            Transpose::NoTranspose => TRANSPOSITION_N,
            Transpose::Transpose => TRANSPOSITION_T,
            Transpose::ConjugateTranspose => TRANSPOSITION_C,
        }
    }
}

} // verus!
