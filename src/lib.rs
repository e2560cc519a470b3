//! Safe building blocks for driving a recursive sparse blocked (RSB) matrix engine.
//!
//! The engine keeps sparse matrices in its own storage and runs the numerical kernels;
//! this crate holds what is decided before a kernel is called: the option flags and
//! their bit layout, the element-type tags, validated views over caller buffers, the
//! argument sets handed to each engine entry point, and the error model.
use vstd::prelude::*;

pub mod discard_zero;
pub mod duplicates;
pub mod error;
pub mod flags;
pub mod major_order;
pub mod mtx;
pub mod numerical_type;
pub mod path;
pub mod repr;
pub mod spmm;
pub mod symmetry;
pub mod transpose;

pub use discard_zero::DiscardZero;
pub use duplicates::Duplicates;
pub use error::{Error, Result};

pub use major_order::MajorOrder;
pub use numerical_type::ElementType;



pub use repr::{Matrix, MatrixMut, Vector, VectorMut};
pub use spmm::{Limit, SpmmOptions};
pub use symmetry::{Symmetry, SymmetryType};
pub use transpose::Transpose;

verus! {

} // verus!
