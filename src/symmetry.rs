//! The structural property a matrix is declared to have.
use vstd::prelude::*;

use crate::flags::{
    FLAG_HERMITIAN, FLAG_LOWER_HERMITIAN, FLAG_LOWER_SYMMETRIC, FLAG_LOWER_TRIANGULAR,
    FLAG_NOFLAGS, FLAG_SYMMETRIC, FLAG_TRIANGULAR, FLAG_UPPER_HERMITIAN, FLAG_UPPER_SYMMETRIC,
    FLAG_UPPER_TRIANGULAR,
};

verus! {

/// How the engine stores and interprets a matrix.
#[derive(Debug, Clone, Copy, PartialEq, Eq, Hash, Structural)]
pub enum Symmetry {
    General,
    Symmetric,
    LowerSymmetric,
    UpperSymmetric,
    LowerHermitian,
    UpperHermitian,
    LowerTriangular,
    UpperTriangular,
}

impl Symmetry {
    /// The flag bits of this symmetry.
    pub open spec fn spec_code(&self) -> i32 {
        match self {
            Symmetry::General => FLAG_NOFLAGS,
            Symmetry::Symmetric => FLAG_SYMMETRIC,
            Symmetry::LowerSymmetric => FLAG_LOWER_SYMMETRIC,
            Symmetry::UpperSymmetric => FLAG_UPPER_SYMMETRIC,
            Symmetry::LowerHermitian => FLAG_LOWER_HERMITIAN,
            Symmetry::UpperHermitian => FLAG_UPPER_HERMITIAN,
            Symmetry::LowerTriangular => FLAG_LOWER_TRIANGULAR,
            Symmetry::UpperTriangular => FLAG_UPPER_TRIANGULAR,
        }
    }

    pub fn code(&self) -> (r: i32)
        ensures
            r == self.spec_code(),
    {
        match self {
            Symmetry::General => FLAG_NOFLAGS,
            Symmetry::Symmetric => FLAG_SYMMETRIC,
            Symmetry::LowerSymmetric => FLAG_LOWER_SYMMETRIC,
            Symmetry::UpperSymmetric => FLAG_UPPER_SYMMETRIC,
            Symmetry::LowerHermitian => FLAG_LOWER_HERMITIAN,
            Symmetry::UpperHermitian => FLAG_UPPER_HERMITIAN,
            Symmetry::LowerTriangular => FLAG_LOWER_TRIANGULAR,
            Symmetry::UpperTriangular => FLAG_UPPER_TRIANGULAR,
        }
    }
}

/// A symmetry fixed by a type, for code that carries the symmetry statically.
pub trait SymmetryType {
    /// The flag bits of the symmetry this type stands for.
    spec fn spec_symmetry_code() -> i32;

    fn symmetry_code() -> (r: i32)
        ensures
            r == Self::spec_symmetry_code(),
    ;
}

/// Marker for a general matrix.
pub struct General {
    _private: (),
}

/// Marker for a symmetric matrix.
pub struct Symmetric {
    _private: (),
}

/// Marker for a Hermitian matrix.
pub struct Hermitian {
    _private: (),
}

/// Marker for a triangular matrix.
pub struct Triangular {
    _private: (),
}

/// Marker for a symmetric matrix given by its lower triangle.
pub struct LowerSymmetric {
    _private: (),
}

/// Marker for a symmetric matrix given by its upper triangle.
pub struct UpperSymmetric {
    _private: (),
}

/// Marker for a Hermitian matrix given by its lower triangle.
pub struct LowerHermitian {
    _private: (),
}

/// Marker for a Hermitian matrix given by its upper triangle.
pub struct UpperHermitian {
    _private: (),
}

/// Marker for a lower triangular matrix.
pub struct LowerTriangular {
    _private: (),
}

/// Marker for an upper triangular matrix.
pub struct UpperTriangular {
    _private: (),
}

impl SymmetryType for General {
    open spec fn spec_symmetry_code() -> i32 {
        FLAG_NOFLAGS
    }

    fn symmetry_code() -> (r: i32) {
        FLAG_NOFLAGS
    }
}

impl SymmetryType for Symmetric {
    open spec fn spec_symmetry_code() -> i32 {
        FLAG_SYMMETRIC
    }

    fn symmetry_code() -> (r: i32) {
        FLAG_SYMMETRIC
    }
}

impl SymmetryType for Hermitian {
    open spec fn spec_symmetry_code() -> i32 {
        FLAG_HERMITIAN
    }

    fn symmetry_code() -> (r: i32) {
        FLAG_HERMITIAN
    }
}

impl SymmetryType for Triangular {
    open spec fn spec_symmetry_code() -> i32 {
        FLAG_TRIANGULAR
    }

    fn symmetry_code() -> (r: i32) {
        FLAG_TRIANGULAR
    }
}

impl SymmetryType for LowerSymmetric {
    open spec fn spec_symmetry_code() -> i32 {
        FLAG_LOWER_SYMMETRIC
    }

    fn symmetry_code() -> (r: i32) {
        FLAG_LOWER_SYMMETRIC
    }
}

impl SymmetryType for UpperSymmetric {
    open spec fn spec_symmetry_code() -> i32 {
        FLAG_UPPER_SYMMETRIC
    }

    fn symmetry_code() -> (r: i32) {
        FLAG_UPPER_SYMMETRIC
    }
}

impl SymmetryType for LowerHermitian {
    open spec fn spec_symmetry_code() -> i32 {
        FLAG_LOWER_HERMITIAN
    }

    fn symmetry_code() -> (r: i32) {
        FLAG_LOWER_HERMITIAN
    }
}

impl SymmetryType for UpperHermitian {
    open spec fn spec_symmetry_code() -> i32 {
        FLAG_UPPER_HERMITIAN
    }

    fn symmetry_code() -> (r: i32) {
        FLAG_UPPER_HERMITIAN
    }
}

impl SymmetryType for LowerTriangular {
    open spec fn spec_symmetry_code() -> i32 {
        FLAG_LOWER_TRIANGULAR
    }

    fn symmetry_code() -> (r: i32) {
        FLAG_LOWER_TRIANGULAR
    }
}

impl SymmetryType for UpperTriangular {
    open spec fn spec_symmetry_code() -> i32 {
        FLAG_UPPER_TRIANGULAR
    }

    fn symmetry_code() -> (r: i32) {
        FLAG_UPPER_TRIANGULAR
    }
}

} // verus!
