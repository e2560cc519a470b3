//! Views over caller-owned dense buffers: vectors with a stride, and matrices with a
//! shape and a major order. A view is validated when it is built, so an invalid one
//! never exists.
use vstd::prelude::*;

use crate::error::{Error, Result};
use crate::major_order::MajorOrder;
use slice_of_array::SliceFlatExt;

verus! {

/// The elements of a nested array in memory order: outer index first.
pub open spec fn flatten<T, const N: usize>(s: Seq<[T; N]>) -> Seq<T> {
    Seq::new((s.len() * N) as nat, |k: int| s[k / N as int]@[k % N as int])
}

/// Relies on slice_of_array's `flat`: the same memory seen as one flat slice.
#[verifier::external_body]
fn flat<T, const N1: usize, const N2: usize>(array: &[[T; N2]; N1]) -> (r: &[T])
    requires
        N1 * N2 <= usize::MAX,
    ensures
        r@ == flatten(array@),
{
    array.flat()
}

/// Relies on slice_of_array's `flat_mut`: the same memory seen as one flat slice, so
/// what is written through the slice is what the array holds afterwards.
#[verifier::external_body]
fn flat_mut<T, const N1: usize, const N2: usize>(array: &mut [[T; N2]; N1]) -> (r: &mut [T])
    requires
        N1 * N2 <= usize::MAX,
    ensures
        r@ == flatten(old(array)@),
        flatten(final(array)@) == final(r)@,
{
    array.flat_mut()
}

/// The abstract value of a dense matrix view.
pub struct MatrixModel<T> {
    pub order: MajorOrder,
    pub nrows: nat,
    pub ncols: nat,
    /// The elements in storage order.
    pub data: Seq<T>,
}

impl<T> MatrixModel<T> {
    /// The buffer holds exactly one element per entry of the shape.
    pub open spec fn wf(self) -> bool {
        self.data.len() == self.nrows * self.ncols
    }

    /// The distance in the buffer between two consecutive vectors of the storage order.
    pub open spec fn leading_dimension(self) -> nat {
        match self.order {
            MajorOrder::Column => self.nrows,
            MajorOrder::Row => self.ncols,
        }
    }

    /// The number of vectors of the storage order: columns when column-major, rows
    /// when row-major.
    pub open spec fn num_vecs(self) -> nat {
        match self.order {
            MajorOrder::Column => self.ncols,
            MajorOrder::Row => self.nrows,
        }
    }
}

/// In a well-formed view the vectors of the storage order, each a leading dimension
/// long, cover the buffer exactly.
pub proof fn lemma_vectors_cover_buffer<T>(m: MatrixModel<T>)
    requires
        m.wf(),
    ensures
        m.leading_dimension() * m.num_vecs() == m.data.len(),
{
    assert(m.nrows * m.ncols == m.ncols * m.nrows) by (nonlinear_arith);
}

/// The shape `(nrows, ncols)` of a matrix stored as `N1` vectors of `N2` elements each.
pub open spec fn array_shape(order: MajorOrder, n1: nat, n2: nat) -> (nat, nat) {
    match order {
        MajorOrder::Column => (n2, n1),
        MajorOrder::Row => (n1, n2),
    }
}

/// The abstract value of a dense vector view.
pub struct VectorModel<T> {
    /// The distance in the buffer between two consecutive elements.
    pub stride: nat,
    pub data: Seq<T>,
}

impl<T> VectorModel<T> {
    /// The stride is positive and divides the buffer length.
    pub open spec fn wf(self) -> bool {
        self.stride >= 1 && self.data.len() % self.stride == 0
    }
}

fn shape_fits(nrows: usize, ncols: usize, len: usize) -> (r: bool)
    ensures
        r == (len == nrows * ncols),
{
    match nrows.checked_mul(ncols) {
        Some(n) => n == len,
        None => false,
    }
}

fn stride_fits(stride: usize, len: usize) -> (r: bool)
    ensures
        r == (stride >= 1 && len % stride == 0),
{
    stride >= 1 && len % stride == 0
}


/// A read-only dense matrix over a caller's buffer.
#[derive(Debug, PartialEq, Eq, Hash)]
pub struct Matrix<'a, T> {
    order: MajorOrder,
    hw: [usize; 2],
    slice: &'a [T],
}

impl<'a, T> View for Matrix<'a, T> {
    type V = MatrixModel<T>;

    closed spec fn view(&self) -> MatrixModel<T> {
        MatrixModel {
            order: self.order,
            nrows: self.hw[0] as nat,
            ncols: self.hw[1] as nat,
            data: self.slice@,
        }
    }
}

impl<'a, T> Clone for Matrix<'a, T> {
    /// Another view of the same buffer.
    fn clone(&self) -> (r: Self)
        ensures
            r@ == self@,
    {
        proof {
            use_type_invariant(self);
        }
        Matrix { order: self.order, hw: self.hw, slice: self.slice }
    }
}

impl<'a, T> Matrix<'a, T> {
    #[verifier::type_invariant]
    spec fn inv(self) -> bool {
        self.slice@.len() == self.hw[0] * self.hw[1]
    }

    /// A row-major view of `nrows` by `ncols` over `slice`.
    pub fn from_row_slice(nrows: usize, ncols: usize, slice: &'a [T]) -> (r: Result<Self>)
        ensures
            match r {
                Ok(m) => slice@.len() == nrows * ncols && m@ == (MatrixModel {
                    order: MajorOrder::Row,
                    nrows: nrows as nat,
                    ncols: ncols as nat,
                    data: slice@,
                }),
                Err(e) => slice@.len() != nrows * ncols && e == (Error::ShapeMismatch {
                    nrows,
                    ncols,
                    len: slice@.len() as usize,
                }),
            },
    {
        Self::from_slice(nrows, ncols, MajorOrder::Row, slice)
    }

    /// A column-major view of `nrows` by `ncols` over `slice`.
    pub fn from_col_slice(nrows: usize, ncols: usize, slice: &'a [T]) -> (r: Result<Self>)
        ensures
            match r {
                Ok(m) => slice@.len() == nrows * ncols && m@ == (MatrixModel {
                    order: MajorOrder::Column,
                    nrows: nrows as nat,
                    ncols: ncols as nat,
                    data: slice@,
                }),
                Err(e) => slice@.len() != nrows * ncols && e == (Error::ShapeMismatch {
                    nrows,
                    ncols,
                    len: slice@.len() as usize,
                }),
            },
    {
        Self::from_slice(nrows, ncols, MajorOrder::Column, slice)
    }

    /// A view of `nrows` by `ncols` stored in `order` over `slice`; it exists exactly
    /// when the slice holds `nrows * ncols` elements.
    pub fn from_slice(nrows: usize, ncols: usize, order: MajorOrder, slice: &'a [T]) -> (r:
        Result<Self>)
        ensures
            match r {
                Ok(m) => slice@.len() == nrows * ncols && m@ == (MatrixModel {
                    order,
                    nrows: nrows as nat,
                    ncols: ncols as nat,
                    data: slice@,
                }),
                Err(e) => slice@.len() != nrows * ncols && e == (Error::ShapeMismatch {
                    nrows,
                    ncols,
                    len: slice@.len() as usize,
                }),
            },
    {
        if shape_fits(nrows, ncols, slice.len()) {
            Ok(Matrix { order, hw: [nrows, ncols], slice })
        } else {
            Err(Error::ShapeMismatch { nrows, ncols, len: slice.len() })
        }
    }

    /// A view over a nested array whose `N1` inner arrays are the vectors of `order`.
    pub fn from_array<const N1: usize, const N2: usize>(
        order: MajorOrder,
        array: &'a [[T; N2]; N1],
    ) -> (r: Self)
        requires
            N1 * N2 <= usize::MAX,
        ensures
            r@ == (MatrixModel {
                order,
                nrows: array_shape(order, N1 as nat, N2 as nat).0,
                ncols: array_shape(order, N1 as nat, N2 as nat).1,
                data: flatten(array@),
            }),
    {
        let slice = flat(array);
        let hw = match order {
            MajorOrder::Column => [N2, N1],
            MajorOrder::Row => [N1, N2],
        };
        assert(N1 * N2 == N2 * N1) by (nonlinear_arith);
        Matrix { order, hw, slice }
    }

    /// A column-major view over an array of `NC` columns of `NR` elements.
    pub fn from_col_array<const NR: usize, const NC: usize>(array: &'a [[T; NR]; NC]) -> (r: Self)
        requires
            NR * NC <= usize::MAX,
        ensures
            r@ == (MatrixModel {
                order: MajorOrder::Column,
                nrows: NR as nat,
                ncols: NC as nat,
                data: flatten(array@),
            }),
    {
        assert(NC * NR == NR * NC) by (nonlinear_arith);
        Self::from_array(MajorOrder::Column, array)
    }

    /// A row-major view over an array of `NR` rows of `NC` elements.
    pub fn from_row_array<const NR: usize, const NC: usize>(array: &'a [[T; NC]; NR]) -> (r: Self)
        requires
            NR * NC <= usize::MAX,
        ensures
            r@ == (MatrixModel {
                order: MajorOrder::Row,
                nrows: NR as nat,
                ncols: NC as nat,
                data: flatten(array@),
            }),
    {
        Self::from_array(MajorOrder::Row, array)
    }

    /// The storage order.
    pub fn order(&self) -> (r: MajorOrder)
        ensures
            r == self@.order,
    {
        self.order
    }

    /// The elements in storage order.
    pub fn slice(&self) -> (r: &[T])
        ensures
            r@ == self@.data,
    {
        self.slice
    }

    /// The shape `[nrows, ncols]`.
    pub fn hw(&self) -> (r: [usize; 2])
        ensures
            r[0] == self@.nrows,
            r[1] == self@.ncols,
    {
        self.hw
    }

    /// The distance between consecutive vectors of the storage order.
    pub fn leading_dimension(&self) -> (r: usize)
        ensures
            r == self@.leading_dimension(),
            self@.wf(),
    {
        proof {
            use_type_invariant(self);
        }
        match self.order {
            MajorOrder::Column => self.hw[0],
            MajorOrder::Row => self.hw[1],
        }
    }

    /// The number of vectors of the storage order.
    pub fn num_vecs(&self) -> (r: usize)
        ensures
            r == self@.num_vecs(),
            self@.wf(),
    {
        proof {
            use_type_invariant(self);
        }
        match self.order {
            MajorOrder::Column => self.hw[1],
            MajorOrder::Row => self.hw[0],
        }
    }
}


/// A writable dense matrix over a caller's buffer.
#[derive(Debug, PartialEq, Eq, Hash)]
pub struct MatrixMut<'a, T> {
    order: MajorOrder,
    hw: [usize; 2],
    slice: &'a mut [T],
}

impl<'a, T> View for MatrixMut<'a, T> {
    type V = MatrixModel<T>;

    closed spec fn view(&self) -> MatrixModel<T> {
        MatrixModel {
            order: self.order,
            nrows: self.hw[0] as nat,
            ncols: self.hw[1] as nat,
            data: self.slice@,
        }
    }
}

impl<'a, T> MatrixMut<'a, T> {
    /// A row-major view of `nrows` by `ncols` over `slice`.
    pub fn from_row_slice(nrows: usize, ncols: usize, slice: &'a mut [T]) -> (r: Result<Self>)
        ensures
            match r {
                Ok(m) => old(slice)@.len() == nrows * ncols && m@ == (MatrixModel {
                    order: MajorOrder::Row,
                    nrows: nrows as nat,
                    ncols: ncols as nat,
                    data: old(slice)@,
                }),
                Err(e) => old(slice)@.len() != nrows * ncols && e == (Error::ShapeMismatch {
                    nrows,
                    ncols,
                    len: old(slice)@.len() as usize,
                }),
            },
    {
        Self::from_slice(nrows, ncols, MajorOrder::Row, slice)
    }

    /// A column-major view of `nrows` by `ncols` over `slice`.
    pub fn from_col_slice(nrows: usize, ncols: usize, slice: &'a mut [T]) -> (r: Result<Self>)
        ensures
            match r {
                Ok(m) => old(slice)@.len() == nrows * ncols && m@ == (MatrixModel {
                    order: MajorOrder::Column,
                    nrows: nrows as nat,
                    ncols: ncols as nat,
                    data: old(slice)@,
                }),
                Err(e) => old(slice)@.len() != nrows * ncols && e == (Error::ShapeMismatch {
                    nrows,
                    ncols,
                    len: old(slice)@.len() as usize,
                }),
            },
    {
        Self::from_slice(nrows, ncols, MajorOrder::Column, slice)
    }

    /// A view of `nrows` by `ncols` stored in `order` over `slice`; it exists exactly
    /// when the slice holds `nrows * ncols` elements.
    pub fn from_slice(nrows: usize, ncols: usize, order: MajorOrder, slice: &'a mut [T]) -> (r:
        Result<Self>)
        ensures
            match r {
                Ok(m) => old(slice)@.len() == nrows * ncols && m@ == (MatrixModel {
                    order,
                    nrows: nrows as nat,
                    ncols: ncols as nat,
                    data: old(slice)@,
                }),
                Err(e) => old(slice)@.len() != nrows * ncols && e == (Error::ShapeMismatch {
                    nrows,
                    ncols,
                    len: old(slice)@.len() as usize,
                }),
            },
    {
        if shape_fits(nrows, ncols, slice.len()) {
            Ok(MatrixMut { order, hw: [nrows, ncols], slice })
        } else {
            Err(Error::ShapeMismatch { nrows, ncols, len: slice.len() })
        }
    }

    /// A view over a nested array whose `N1` inner arrays are the vectors of `order`.
    pub fn from_array<const N1: usize, const N2: usize>(
        order: MajorOrder,
        array: &'a mut [[T; N2]; N1],
    ) -> (r: Self)
        requires
            N1 * N2 <= usize::MAX,
        ensures
            r@ == (MatrixModel {
                order,
                nrows: array_shape(order, N1 as nat, N2 as nat).0,
                ncols: array_shape(order, N1 as nat, N2 as nat).1,
                data: flatten(old(array)@),
            }),
    {
        let slice = flat_mut(array);
        let hw = match order {
            MajorOrder::Column => [N2, N1],
            MajorOrder::Row => [N1, N2],
        };
        assert(N1 * N2 == N2 * N1) by (nonlinear_arith);
        MatrixMut { order, hw, slice }
    }

    /// A column-major view over an array of `NC` columns of `NR` elements.
    pub fn from_col_array<const NR: usize, const NC: usize>(array: &'a mut [[T; NR]; NC]) -> (r:
        Self)
        requires
            NR * NC <= usize::MAX,
        ensures
            r@ == (MatrixModel {
                order: MajorOrder::Column,
                nrows: NR as nat,
                ncols: NC as nat,
                data: flatten(old(array)@),
            }),
    {
        assert(NC * NR == NR * NC) by (nonlinear_arith);
        Self::from_array(MajorOrder::Column, array)
    }

    /// A row-major view over an array of `NR` rows of `NC` elements.
    pub fn from_row_array<const NR: usize, const NC: usize>(array: &'a mut [[T; NC]; NR]) -> (r:
        Self)
        requires
            NR * NC <= usize::MAX,
        ensures
            r@ == (MatrixModel {
                order: MajorOrder::Row,
                nrows: NR as nat,
                ncols: NC as nat,
                data: flatten(old(array)@),
            }),
    {
        Self::from_array(MajorOrder::Row, array)
    }

    /// The storage order.
    pub fn order(&self) -> (r: MajorOrder)
        ensures
            r == self@.order,
    {
        self.order
    }

    /// The elements in storage order, writable; the view keeps its shape.
    pub fn slice(&mut self) -> (r: &mut [T])
        ensures
            r@ == old(self)@.data,
            final(self)@ == (MatrixModel { data: final(r)@, ..old(self)@ }),
    {
        self.slice
    }

    /// The shape `[nrows, ncols]`.
    pub fn hw(&self) -> (r: [usize; 2])
        ensures
            r[0] == self@.nrows,
            r[1] == self@.ncols,
    {
        self.hw
    }

    /// The distance between consecutive vectors of the storage order.
    pub fn leading_dimension(&self) -> (r: usize)
        ensures
            r == self@.leading_dimension(),
    {
        match self.order {
            MajorOrder::Column => self.hw[0],
            MajorOrder::Row => self.hw[1],
        }
    }

    /// The number of vectors of the storage order.
    pub fn num_vecs(&self) -> (r: usize)
        ensures
            r == self@.num_vecs(),
    {
        match self.order {
            MajorOrder::Column => self.hw[1],
            MajorOrder::Row => self.hw[0],
        }
    }
}


/// A read-only dense vector over a caller's buffer, read every `stride` elements.
#[derive(Debug, PartialEq, Eq, Hash)]
pub struct Vector<'a, T> {
    stride: usize,
    slice: &'a [T],
}

impl<'a, T> View for Vector<'a, T> {
    type V = VectorModel<T>;

    closed spec fn view(&self) -> VectorModel<T> {
        VectorModel { stride: self.stride as nat, data: self.slice@ }
    }
}

impl<'a, T> Clone for Vector<'a, T> {
    /// Another view of the same buffer.
    fn clone(&self) -> (r: Self)
        ensures
            r@ == self@,
    {
        proof {
            use_type_invariant(self);
        }
        Vector { stride: self.stride, slice: self.slice }
    }
}

impl<'a, T> Vector<'a, T> {
    #[verifier::type_invariant]
    spec fn inv(self) -> bool {
        self.stride >= 1 && self.slice@.len() % (self.stride as nat) == 0
    }

    /// A view of every element of `slice`.
    pub fn from_slice(slice: &'a [T]) -> (r: Self)
        ensures
            r@ == (VectorModel { stride: 1, data: slice@ }),
    {
        Vector { slice, stride: 1 }
    }

    /// A view of `slice` with the given stride; it exists exactly when the stride is
    /// positive and divides the slice length.
    pub fn from_strided_slice(stride: usize, slice: &'a [T]) -> (r: Result<Self>)
        ensures
            match r {
                Ok(v) => stride >= 1 && slice@.len() % (stride as nat) == 0 && v@ == (
                VectorModel { stride: stride as nat, data: slice@ }),
                Err(e) => !(stride >= 1 && slice@.len() % (stride as nat) == 0) && e == (
                Error::InvalidStride { stride, len: slice@.len() as usize }),
            },
    {
        if stride_fits(stride, slice.len()) {
            Ok(Vector { slice, stride })
        } else {
            Err(Error::InvalidStride { stride, len: slice.len() })
        }
    }

    /// The distance between consecutive elements.
    pub fn stride(&self) -> (r: usize)
        ensures
            r == self@.stride,
            self@.wf(),
    {
        proof {
            use_type_invariant(self);
        }
        self.stride
    }

    /// The whole buffer.
    pub fn slice(&self) -> (r: &[T])
        ensures
            r@ == self@.data,
    {
        self.slice
    }
}

impl<'a, T> From<&'a [T]> for Vector<'a, T> {
    fn from(slice: &'a [T]) -> (r: Self)
        ensures
            r@ == (VectorModel { stride: 1, data: slice@ }),
    {
        Vector { slice, stride: 1 }
    }
}

impl<'a, T> vstd::std_specs::convert::FromSpecImpl<&'a [T]> for Vector<'a, T> {
    open spec fn obeys_from_spec() -> bool {
        true
    }

    closed spec fn from_spec(v: &'a [T]) -> Self {
        Vector { slice: v, stride: 1 }
    }
}

/// A writable dense vector over a caller's buffer, written every `stride` elements.
#[derive(Debug, PartialEq, Eq, Hash)]
pub struct VectorMut<'a, T> {
    stride: usize,
    slice: &'a mut [T],
}

impl<'a, T> View for VectorMut<'a, T> {
    type V = VectorModel<T>;

    closed spec fn view(&self) -> VectorModel<T> {
        VectorModel { stride: self.stride as nat, data: self.slice@ }
    }
}

impl<'a, T> VectorMut<'a, T> {
    /// A view of every element of `slice`.
    pub fn from_slice(slice: &'a mut [T]) -> (r: Self)
        ensures
            r@ == (VectorModel { stride: 1, data: old(slice)@ }),
    {
        VectorMut { slice, stride: 1 }
    }

    /// A view of `slice` with the given stride; it exists exactly when the stride is
    /// positive and divides the slice length.
    pub fn from_strided_slice(stride: usize, slice: &'a mut [T]) -> (r: Result<Self>)
        ensures
            match r {
                Ok(v) => stride >= 1 && old(slice)@.len() % (stride as nat) == 0 && v@ == (
                VectorModel { stride: stride as nat, data: old(slice)@ }),
                Err(e) => !(stride >= 1 && old(slice)@.len() % (stride as nat) == 0) && e == (
                Error::InvalidStride { stride, len: old(slice)@.len() as usize }),
            },
    {
        if stride_fits(stride, slice.len()) {
            Ok(VectorMut { slice, stride })
        } else {
            Err(Error::InvalidStride { stride, len: slice.len() })
        }
    }

    /// The distance between consecutive elements.
    pub fn stride(&self) -> (r: usize)
        ensures
            r == self@.stride,
    {
        self.stride
    }

    /// The whole buffer, writable; the view keeps its stride.
    pub fn slice(&mut self) -> (r: &mut [T])
        ensures
            r@ == old(self)@.data,
            final(self)@ == (VectorModel { data: final(r)@, ..old(self)@ }),
    {
        self.slice
    }
}

impl<'a, T> From<&'a mut [T]> for VectorMut<'a, T> {
    fn from(slice: &'a mut [T]) -> (r: Self)
        ensures
            r@ == (VectorModel { stride: 1, data: old(slice)@ }),
    {
        Self::from_slice(slice)
    }
}

/// A moved `&mut` cannot be compared as a value: what `from` returns is stated by its own
/// contract above.
impl<'a, T> vstd::std_specs::convert::FromSpecImpl<&'a mut [T]> for VectorMut<'a, T> {
    open spec fn obeys_from_spec() -> bool {
        false
    }

    closed spec fn from_spec(v: &'a mut [T]) -> Self {
        VectorMut { slice: v, stride: 1 }
    }
}

} // verus!
