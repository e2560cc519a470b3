//! What a matrix handle decides before each engine call: the flags word, the element
//! tag, the counts and strides in the engine's index type, and the checks that keep
//! an invalid call from reaching the engine. A handle hands these argument sets to the
//! engine together with its buffers, and turns the returned status into a result with
//! `error::check`.
use vstd::prelude::*;

use crate::discard_zero::DiscardZero;
use crate::duplicates::Duplicates;
use crate::error::{Error, Result};
use crate::flags::{
    lemma_symmetry_and_duplicates_kept, DUPLICATES_MASK, FLAG_C_INDICES_INTERFACE,
    FLAG_DISCARD_ZEROS, FLAG_IDENTICAL_FLAGS, SYMMETRY_MASK,
};
use crate::numerical_type::ElementType;
use crate::repr::{lemma_vectors_cover_buffer, Matrix, MatrixMut, Vector, VectorMut};
use crate::symmetry::Symmetry;
use crate::transpose::Transpose;

verus! {

/// The blocking hint handed to the allocation routines: let the engine choose.
pub const DEFAULT_BLOCKING: i32 = 1;

/// The largest count, index or stride the engine's index type holds.
pub const INDEX_MAX: usize = 0x7fff_ffff;

/// `value` in the engine's index type, or the overflow it causes.
pub open spec fn index_of(value: usize) -> Result<i32> {
    if value <= INDEX_MAX {
        Ok(value as i32)
    } else {
        Err(Error::IndexOverflow { value })
    }
}

/// Converts a count, index or stride to the engine's index type.
pub fn to_index(value: usize) -> (r: Result<i32>)
    ensures
        r == index_of(value),
{
    if value <= INDEX_MAX {
        Ok(value as i32)
    } else {
        Err(Error::IndexOverflow { value })
    }
}

/// The flags word of a new matrix: its duplicate policy and its symmetry.
pub open spec fn spec_alloc_flags(symmetry: Symmetry, duplicates: Duplicates) -> i32 {
    duplicates.spec_code() | symmetry.spec_code()
}

pub fn alloc_flags(symmetry: Symmetry, duplicates: Duplicates) -> (r: i32)
    ensures
        r == spec_alloc_flags(symmetry, duplicates),
        r & SYMMETRY_MASK == symmetry.spec_code(),
        r & DUPLICATES_MASK == duplicates.spec_code(),
{
    proof {
        lemma_symmetry_and_duplicates_kept(symmetry, duplicates);
    }
    duplicates.code() | symmetry.code()
}

/// What the engine's allocation routines take besides the arrays.
#[derive(Debug, Clone, Copy, PartialEq, Eq, Hash, Structural)]
pub struct AllocArgs {
    /// The number of entries given.
    pub nnz: i32,
    pub type_code: u8,
    pub nrows: i32,
    pub ncols: i32,
    pub flags: i32,
}

/// The arguments of an allocation from `nnz` entries, or why there are none.
pub open spec fn alloc_outcome(
    nrows: i32,
    ncols: i32,
    nnz: usize,
    elem: ElementType,
    symmetry: Symmetry,
    duplicates: Duplicates,
) -> Result<AllocArgs> {
    if nnz <= INDEX_MAX {
        Ok(
            AllocArgs {
                nnz: nnz as i32,
                type_code: elem.spec_code(),
                nrows,
                ncols,
                flags: spec_alloc_flags(symmetry, duplicates),
            },
        )
    } else {
        Err(Error::IndexOverflow { value: nnz })
    }
}

fn alloc_args(
    nrows: i32,
    ncols: i32,
    nnz: usize,
    elem: ElementType,
    symmetry: Symmetry,
    duplicates: Duplicates,
) -> (r: Result<AllocArgs>)
    ensures
        r == alloc_outcome(nrows, ncols, nnz, elem, symmetry, duplicates),
{
    let nnz = to_index(nnz)?;
    let type_code = elem.code();
    let flags = alloc_flags(symmetry, duplicates);
    Ok(AllocArgs { nnz, type_code, nrows, ncols, flags })
}

/// Arguments for building an `nrows` by `ncols` matrix from coordinates: value
/// `va[k]` stands at row `ia[k]` and column `ja[k]`.
pub fn coo_alloc_args<T>(
    nrows: i32,
    ncols: i32,
    va: &[T],
    ia: &[i32],
    ja: &[i32],
    elem: ElementType,
    symmetry: Symmetry,
    duplicates: Duplicates,
) -> (r: Result<AllocArgs>)
    requires
        nrows >= 0,
        ncols >= 0,
        ia@.len() == va@.len(),
        ja@.len() == va@.len(),
    ensures
        r == alloc_outcome(nrows, ncols, va@.len() as usize, elem, symmetry, duplicates),
{
    alloc_args(nrows, ncols, va.len(), elem, symmetry, duplicates)
}

/// Arguments for building an `nrows` by `ncols` matrix in compressed-column form: the
/// entries of column `j` are `va[cp[j]..cp[j + 1]]`, at rows `ia[cp[j]..cp[j + 1]]`.
pub fn csc_alloc_args<T>(
    nrows: i32,
    ncols: i32,
    va: &[T],
    ia: &[i32],
    cp: &[i32],
    elem: ElementType,
    symmetry: Symmetry,
    duplicates: Duplicates,
) -> (r: Result<AllocArgs>)
    requires
        nrows >= 0,
        ncols >= 0,
        ia@.len() == va@.len(),
        cp@.len() == ncols + 1,
    ensures
        r == alloc_outcome(nrows, ncols, va@.len() as usize, elem, symmetry, duplicates),
{
    alloc_args(nrows, ncols, va.len(), elem, symmetry, duplicates)
}

/// Arguments for building an `nrows` by `ncols` matrix in compressed-row form: the
/// entries of row `i` are `va[rp[i]..rp[i + 1]]`, at columns `ja[rp[i]..rp[i + 1]]`.
pub fn csr_alloc_args<T>(
    nrows: i32,
    ncols: i32,
    va: &[T],
    rp: &[i32],
    ja: &[i32],
    elem: ElementType,
    symmetry: Symmetry,
    duplicates: Duplicates,
) -> (r: Result<AllocArgs>)
    requires
        nrows >= 0,
        ncols >= 0,
        ja@.len() == va@.len(),
        rp@.len() == nrows + 1,
    ensures
        r == alloc_outcome(nrows, ncols, va@.len() as usize, elem, symmetry, duplicates),
{
    alloc_args(nrows, ncols, va.len(), elem, symmetry, duplicates)
}


/// What the matrix-vector kernels (product and triangular solve) take besides the
/// matrix, the scales and the buffers.
#[derive(Debug, Clone, Copy, PartialEq, Eq, Hash, Structural)]
pub struct VectorKernelArgs {
    pub trans: i32,
    /// The stride of the input vector.
    pub incx: i32,
    /// The stride of the output vector.
    pub incy: i32,
}

/// Arguments for `y <- alpha * op(A) * x + beta * y` and for solving
/// `op(A) * y = alpha * x`, with `x` read from `rhs` and `y` held by `output`. The
/// lengths of the vectors are the engine's to check against the matrix.
pub fn vector_kernel_args<T>(
    transpose: Transpose,
    rhs: &Vector<T>,
    output: &VectorMut<T>,
) -> (r: Result<VectorKernelArgs>)
    ensures
        rhs@.wf(),
        match r {
            Ok(a) => rhs@.stride <= INDEX_MAX && output@.stride <= INDEX_MAX && a == (
            VectorKernelArgs {
                trans: transpose.spec_code(),
                incx: rhs@.stride as i32,
                incy: output@.stride as i32,
            }),
            Err(e) => if rhs@.stride > INDEX_MAX {
                e == (Error::IndexOverflow { value: rhs@.stride as usize })
            } else {
                output@.stride > INDEX_MAX && e == (Error::IndexOverflow {
                    value: output@.stride as usize,
                })
            },
        },
{
    let incx = to_index(rhs.stride())?;
    let incy = to_index(output.stride())?;
    Ok(VectorKernelArgs { trans: transpose.code(), incx, incy })
}

/// What the multi-vector triangular solve takes besides the matrix, the scales and the
/// buffers.
#[derive(Debug, Clone, Copy, PartialEq, Eq, Hash, Structural)]
pub struct SpsmArgs {
    pub trans: i32,
    /// The number of right-hand sides.
    pub nrhs: i32,
    /// The flag bits of the shared major order.
    pub order: i32,
    /// The leading dimension of the right-hand sides.
    pub ldb: i32,
    /// The leading dimension of the output.
    pub ldc: i32,
}

/// Arguments for solving with the vectors of `rhs` as right-hand sides into `output`.
/// The two must share their major order: otherwise the call is refused with
/// `OrderMismatch` and nothing is handed to the engine.
pub fn spsm_args<T>(transpose: Transpose, rhs: &Matrix<T>, output: &MatrixMut<T>) -> (r: Result<
    SpsmArgs,
>)
    ensures
        rhs@.wf(),
        rhs@.data.len() == rhs@.leading_dimension() * rhs@.num_vecs(),
        rhs@.order != output@.order <==> r == Err::<SpsmArgs, Error>(Error::OrderMismatch),
        match r {
            Ok(a) => {
                &&& rhs@.num_vecs() <= INDEX_MAX
                &&& rhs@.leading_dimension() <= INDEX_MAX
                &&& output@.leading_dimension() <= INDEX_MAX
                &&& a == (SpsmArgs {
                    trans: transpose.spec_code(),
                    nrhs: rhs@.num_vecs() as i32,
                    order: rhs@.order.spec_code(),
                    ldb: rhs@.leading_dimension() as i32,
                    ldc: output@.leading_dimension() as i32,
                })
            },
            Err(e) => rhs@.order != output@.order || (e is IndexOverflow && (rhs@.num_vecs()
                > INDEX_MAX || rhs@.leading_dimension() > INDEX_MAX
                || output@.leading_dimension() > INDEX_MAX)),
        },
{
    let nvecs = rhs.num_vecs();
    proof {
        lemma_vectors_cover_buffer(rhs@);
    }
    if rhs.order() != output.order() {
        return Err(Error::OrderMismatch);
    }
    let nrhs = to_index(nvecs)?;
    let ldb = to_index(rhs.leading_dimension())?;
    let ldc = to_index(output.leading_dimension())?;
    Ok(SpsmArgs { trans: transpose.code(), nrhs, order: rhs.order().code(), ldb, ldc })
}


/// What the sparse sum and the sparse product of two matrices take besides the
/// matrices and the scales.
#[derive(Debug, Clone, Copy, PartialEq, Eq, Hash, Structural)]
pub struct CombineArgs {
    pub type_code: u8,
    /// The operator applied to the left matrix.
    pub trans_a: i32,
    /// The operator applied to the right matrix.
    pub trans_b: i32,
}

/// Arguments for `alpha * op(A) + beta * op(B)` and for the product of `op(A)` and
/// `op(B)`; the result is a new matrix of element type `elem`.
pub fn combine_args(elem: ElementType, self_transpose: Transpose, rhs_transpose: Transpose) -> (r:
    CombineArgs)
    ensures
        r == (CombineArgs {
            type_code: elem.spec_code(),
            trans_a: self_transpose.spec_code(),
            trans_b: rhs_transpose.spec_code(),
        }),
{
    CombineArgs {
        type_code: elem.code(),
        trans_a: self_transpose.code(),
        trans_b: rhs_transpose.code(),
    }
}

/// What the engine's copy routine takes besides the source matrix and the scale.
#[derive(Debug, Clone, Copy, PartialEq, Eq, Hash, Structural)]
pub struct CloneArgs {
    /// The element type of the copy.
    pub type_code: u8,
    pub trans: i32,
    pub flags: i32,
}

/// Arguments for copying a matrix into a new, independent one of element type
/// `target`, transformed by `transpose`, dropping stored zeros when asked.
pub fn convert_args(target: ElementType, transpose: Transpose, discard_zeros: bool) -> (r:
    CloneArgs)
    ensures
        r == (CloneArgs {
            type_code: target.spec_code(),
            trans: transpose.spec_code(),
            flags: if discard_zeros {
                FLAG_DISCARD_ZEROS
            } else {
                FLAG_IDENTICAL_FLAGS
            },
        }),
{
    let discard = DiscardZero::from(discard_zeros);
    CloneArgs { type_code: target.code(), trans: transpose.code(), flags: discard.code() }
}

/// Arguments for a deep copy: the same element type, no transposition, and the
/// source's own flags.
pub fn clone_args(elem: ElementType) -> (r: CloneArgs)
    ensures
        r == (CloneArgs {
            type_code: elem.spec_code(),
            trans: Transpose::NoTranspose.spec_code(),
            flags: FLAG_IDENTICAL_FLAGS,
        }),
{
    convert_args(elem, Transpose::NoTranspose, false)
}

/// What the routines that write or read values at given coordinates take besides the
/// matrix and the arrays.
#[derive(Debug, Clone, Copy, PartialEq, Eq, Hash, Structural)]
pub struct CooArgs {
    /// The number of coordinates.
    pub nnz: i32,
    pub flags: i32,
}

/// The arguments of a coordinate call over arrays of `rows`, `cols` and `vals`
/// elements, or why there are none.
pub open spec fn coo_outcome(rows: usize, cols: usize, vals: usize, flags: i32) -> Result<
    CooArgs,
> {
    if cols != rows || vals != rows {
        Err(Error::LengthMismatch { rows, cols, vals })
    } else if rows > INDEX_MAX {
        Err(Error::IndexOverflow { value: rows })
    } else {
        Ok(CooArgs { nnz: rows as i32, flags })
    }
}

fn coo_args(rows: usize, cols: usize, vals: usize, flags: i32) -> (r: Result<CooArgs>)
    ensures
        r == coo_outcome(rows, cols, vals, flags),
{
    if cols != rows || vals != rows {
        return Err(Error::LengthMismatch { rows, cols, vals });
    }
    let nnz = to_index(rows)?;
    Ok(CooArgs { nnz, flags })
}

/// Arguments for merging the entries `vals[k]` at `(rows[k], cols[k])` into a matrix.
/// Arrays of different lengths are refused with `LengthMismatch` before the engine is
/// involved.
pub fn extend_args<T>(rows: &[i32], cols: &[i32], vals: &[T], duplicates: Duplicates) -> (r:
    Result<CooArgs>)
    ensures
        r == coo_outcome(
            rows@.len() as usize,
            cols@.len() as usize,
            vals@.len() as usize,
            duplicates.spec_code(),
        ),
{
    coo_args(rows.len(), cols.len(), vals.len(), duplicates.code())
}

/// Arguments for reading the values at `(rows[k], cols[k])` into `values[k]`, with
/// indices counted from zero. Arrays of different lengths are refused with
/// `LengthMismatch` before the engine is involved.
pub fn get_args<T>(values: &[T], rows: &[i32], cols: &[i32]) -> (r: Result<CooArgs>)
    ensures
        r == coo_outcome(
            rows@.len() as usize,
            cols@.len() as usize,
            values@.len() as usize,
            FLAG_C_INDICES_INTERFACE,
        ),
{
    coo_args(rows.len(), cols.len(), values.len(), FLAG_C_INDICES_INTERFACE)
}

/// The coordinate `(row, col)` in the engine's index type.
pub fn coordinate(row: usize, col: usize) -> (r: Result<(i32, i32)>)
    ensures
        match r {
            Ok((i, j)) => row <= INDEX_MAX && col <= INDEX_MAX && i == row && j == col,
            Err(e) => if row > INDEX_MAX {
                e == (Error::IndexOverflow { value: row })
            } else {
                col > INDEX_MAX && e == (Error::IndexOverflow { value: col })
            },
        },
{
    let i = to_index(row)?;
    let j = to_index(col)?;
    Ok((i, j))
}


/// Both indices of an entry fit in the engine's index type.
pub open spec fn entry_fits<T>(entry: (usize, usize, T)) -> bool {
    entry.0 <= INDEX_MAX && entry.1 <= INDEX_MAX
}

/// The overflow an entry that does not fit causes: its row if that is too large, else
/// its column.
pub open spec fn entry_overflow<T>(entry: (usize, usize, T)) -> Error {
    if entry.0 > INDEX_MAX {
        Error::IndexOverflow { value: entry.0 }
    } else {
        Error::IndexOverflow { value: entry.1 }
    }
}

/// Splits `(row, col, value)` entries into the three parallel arrays the engine takes.
/// The first entry with an index out of the engine's range is reported.
pub fn unzip_entries<T: Copy>(entries: &[(usize, usize, T)]) -> (r: Result<
    (Vec<i32>, Vec<i32>, Vec<T>),
>)
    ensures
        match r {
            Ok((rows, cols, vals)) => {
                &&& rows@.len() == entries@.len()
                &&& cols@.len() == entries@.len()
                &&& vals@.len() == entries@.len()
                &&& forall|k: int|
                    0 <= k < entries@.len() ==> {
                        &&& entry_fits(#[trigger] entries@[k])
                        &&& rows@[k] == entries@[k].0
                        &&& cols@[k] == entries@[k].1
                        &&& vals@[k] == entries@[k].2
                    }
            },
            Err(e) => exists|k: int|
                {
                    &&& 0 <= k < entries@.len()
                    &&& !entry_fits(entries@[k])
                    &&& e == entry_overflow(entries@[k])
                    &&& forall|m: int| 0 <= m < k ==> entry_fits(#[trigger] entries@[m])
                },
        },
{
    let mut rows: Vec<i32> = Vec::new();
    let mut cols: Vec<i32> = Vec::new();
    let mut vals: Vec<T> = Vec::new();
    let mut k: usize = 0;
    while k < entries.len()
        invariant
            k <= entries@.len(),
            rows@.len() == k,
            cols@.len() == k,
            vals@.len() == k,
            forall|m: int|
                0 <= m < k ==> {
                    &&& entry_fits(#[trigger] entries@[m])
                    &&& rows@[m] == entries@[m].0
                    &&& cols@[m] == entries@[m].1
                    &&& vals@[m] == entries@[m].2
                },
        decreases entries@.len() - k,
    {
        let (row, col, val) = entries[k];
        let i = match to_index(row) {
            Ok(i) => i,
            Err(e) => {
                return Err(e);
            },
        };
        let j = match to_index(col) {
            Ok(j) => j,
            Err(e) => {
                return Err(e);
            },
        };
        rows.push(i);
        cols.push(j);
        vals.push(val);
        k += 1;
    }
    Ok((rows, cols, vals))
}

/// The engine's code for multiplying every stored value by a scalar.
pub const ELOPF_MUL: i32 = 0x1;
/// The engine's code for dividing every stored value by a scalar.
pub const ELOPF_DIV: i32 = 0x2;
/// The engine's code for raising every stored value to a power.
pub const ELOPF_POW: i32 = 0x4;
/// The engine's code for negating every stored value.
pub const ELOPF_NEG: i32 = 0x8;

/// An in-place update of every stored value.
#[derive(Debug, Clone, Copy, PartialEq, Eq, Hash, Structural)]
pub enum ElementwiseOp {
    /// Multiply by the scalar operand.
    Mul,
    /// Divide by the scalar operand.
    Div,
    /// Raise to the scalar operand.
    Pow,
    /// Negate; there is no operand.
    Neg,
}

impl ElementwiseOp {
    /// The engine's code of this update.
    pub open spec fn spec_code(&self) -> i32 {
        match self {
            ElementwiseOp::Mul => ELOPF_MUL,
            ElementwiseOp::Div => ELOPF_DIV,
            ElementwiseOp::Pow => ELOPF_POW,
            ElementwiseOp::Neg => ELOPF_NEG,
        }
    }

    pub fn code(&self) -> (r: i32)
        ensures
            r == self.spec_code(),
    {
        match self {
            ElementwiseOp::Mul => ELOPF_MUL,
            ElementwiseOp::Div => ELOPF_DIV,
            ElementwiseOp::Pow => ELOPF_POW,
            ElementwiseOp::Neg => ELOPF_NEG,
        }
    }

    /// Whether the update takes a scalar operand.
    pub fn takes_operand(&self) -> (r: bool)
        ensures
            r == (*self != ElementwiseOp::Neg),
    {
        match self {
            ElementwiseOp::Neg => false,
            _ => true,
        }
    }
}

} // verus!
