//! The element types the engine stores, and their tags.
use vstd::prelude::*;

verus! {

/// The engine's tag for double precision reals (`'D'`).
pub const NUMERICAL_TYPE_DOUBLE: u8 = 0x44;
/// The engine's tag for single precision reals (`'S'`).
pub const NUMERICAL_TYPE_FLOAT: u8 = 0x53;
/// The engine's tag for single precision complex numbers (`'C'`).
pub const NUMERICAL_TYPE_FLOAT_COMPLEX: u8 = 0x43;
/// The engine's tag for double precision complex numbers (`'Z'`).
pub const NUMERICAL_TYPE_DOUBLE_COMPLEX: u8 = 0x5A;

/// An element type the engine supports.
#[derive(Debug, Clone, Copy, PartialEq, Eq, Hash, Structural)]
pub enum ElementType {
    Double,
    Float,
    FloatComplex,
    DoubleComplex,
}

impl ElementType {
    /// The engine's tag of this type.
    pub open spec fn spec_code(&self) -> u8 {
        match self {
            ElementType::Double => NUMERICAL_TYPE_DOUBLE,
            ElementType::Float => NUMERICAL_TYPE_FLOAT,
            ElementType::FloatComplex => NUMERICAL_TYPE_FLOAT_COMPLEX,
            ElementType::DoubleComplex => NUMERICAL_TYPE_DOUBLE_COMPLEX,
        }
    }

    pub fn code(&self) -> (r: u8)
        ensures
            r == self.spec_code(),
    {
        match self {
            ElementType::Double => NUMERICAL_TYPE_DOUBLE,
            ElementType::Float => NUMERICAL_TYPE_FLOAT,
            ElementType::FloatComplex => NUMERICAL_TYPE_FLOAT_COMPLEX,
            ElementType::DoubleComplex => NUMERICAL_TYPE_DOUBLE_COMPLEX,
        }
    }
}

/// Distinct types carry distinct tags, so a tag always names the buffer layout.
pub proof fn lemma_codes_distinct(a: ElementType, b: ElementType)
    ensures
        a.spec_code() == b.spec_code() <==> a == b,
{
}

} // verus!
