use rsb::error::check;
use rsb::mtx::{
    clone_args, combine_args, convert_args, coo_alloc_args, coordinate, csc_alloc_args,
    csr_alloc_args, extend_args, get_args, spsm_args, to_index, unzip_entries,
    vector_kernel_args, AllocArgs, CloneArgs, CombineArgs, CooArgs, ElementwiseOp, SpsmArgs,
    VectorKernelArgs,
};
use rsb::{
    Duplicates, ElementType, Error, MajorOrder, Matrix, MatrixMut, Symmetry, Transpose, Vector,
    VectorMut,
};

#[test]
fn spsm_rejects_mixed_orders() {
    let b = [1.0f64, 2.0, 3.0, 4.0];
    let mut c = [0.0f64; 4];
    let rhs = Matrix::from_col_slice(2, 2, &b).unwrap();
    let out = MatrixMut::from_row_slice(2, 2, &mut c).unwrap();
    assert_eq!(spsm_args(Transpose::NoTranspose, &rhs, &out), Err(Error::OrderMismatch));
    let rhs = Matrix::from_row_slice(2, 2, &b).unwrap();
    let mut c2 = [0.0f64; 4];
    let out = MatrixMut::from_col_slice(2, 2, &mut c2).unwrap();
    assert_eq!(spsm_args(Transpose::Transpose, &rhs, &out), Err(Error::OrderMismatch));
}

#[test]
fn spsm_args_for_matching_orders() {
    let b = [1.0f64; 6];
    let mut c = [0.0f64; 6];
    let rhs = Matrix::from_col_slice(3, 2, &b).unwrap();
    let out = MatrixMut::from_col_slice(3, 2, &mut c).unwrap();
    assert_eq!(
        spsm_args(Transpose::Transpose, &rhs, &out),
        Ok(SpsmArgs { trans: 0x54, nrhs: 2, order: 0x4000000, ldb: 3, ldc: 3 })
    );
    let rhs = Matrix::from_row_slice(3, 2, &b).unwrap();
    let mut c2 = [0.0f64; 6];
    let out = MatrixMut::from_row_slice(3, 2, &mut c2).unwrap();
    assert_eq!(
        spsm_args(Transpose::NoTranspose, &rhs, &out),
        Ok(SpsmArgs { trans: 0x4E, nrhs: 3, order: 0, ldb: 2, ldc: 2 })
    );
}

#[test]
fn extend_rejects_short_values() {
    let rows = [0, 1, 2];
    let cols = [0, 1, 2];
    let vals = [1.0f64, 2.0];
    assert_eq!(
        extend_args(&rows, &cols, &vals, Duplicates::Sum),
        Err(Error::LengthMismatch { rows: 3, cols: 3, vals: 2 })
    );
    let short_cols = [0];
    assert_eq!(
        extend_args(&rows, &short_cols, &[1.0f64, 2.0, 3.0], Duplicates::Overwrite),
        Err(Error::LengthMismatch { rows: 3, cols: 1, vals: 3 })
    );
}

#[test]
fn extend_args_carry_policy() {
    let rows = [0, 1];
    let cols = [1, 0];
    let vals = [1.0f64, 2.0];
    assert_eq!(
        extend_args(&rows, &cols, &vals, Duplicates::Sum),
        Ok(CooArgs { nnz: 2, flags: 0x200 })
    );
    assert_eq!(
        extend_args(&rows, &cols, &vals, Duplicates::Overwrite),
        Ok(CooArgs { nnz: 2, flags: 0 })
    );
    let empty: [i32; 0] = [];
    let none: [f64; 0] = [];
    assert_eq!(
        extend_args(&empty, &empty, &none, Duplicates::Sum),
        Ok(CooArgs { nnz: 0, flags: 0x200 })
    );
}

#[test]
fn get_args_check_lengths() {
    let mut values = [0.0f64; 2];
    assert_eq!(get_args(&values, &[0, 1], &[0, 1]), Ok(CooArgs { nnz: 2, flags: 0 }));
    values[0] = 1.0;
    assert_eq!(
        get_args(&values[..1], &[0, 1], &[0, 1]),
        Err(Error::LengthMismatch { rows: 2, cols: 2, vals: 1 })
    );
}

#[test]
fn alloc_args_for_each_layout() {
    let va = [1.0f64, 2.0];
    let expected = AllocArgs { nnz: 2, type_code: b'D', nrows: 2, ncols: 2, flags: 0x200 };
    assert_eq!(
        coo_alloc_args(2, 2, &va, &[0, 1], &[0, 1], ElementType::Double, Symmetry::General, Duplicates::Sum),
        Ok(expected)
    );
    assert_eq!(
        csc_alloc_args(2, 2, &va, &[0, 1], &[0, 1, 2], ElementType::Double, Symmetry::General, Duplicates::Sum),
        Ok(expected)
    );
    assert_eq!(
        csr_alloc_args(2, 2, &va, &[0, 1, 2], &[0, 1], ElementType::Double, Symmetry::General, Duplicates::Sum),
        Ok(expected)
    );
    assert_eq!(
        coo_alloc_args(3, 1, &[2.0f32], &[2], &[0], ElementType::Float, Symmetry::UpperTriangular, Duplicates::Overwrite),
        Ok(AllocArgs { nnz: 1, type_code: b'S', nrows: 3, ncols: 1, flags: 0x28 })
    );
}

#[test]
fn vector_kernel_args_use_strides() {
    let x = [1.0f64, 1.0, 1.0, 1.0];
    let mut y = [0.0f64; 2];
    let rhs = Vector::from_strided_slice(2, &x).unwrap();
    let out = VectorMut::from_slice(&mut y);
    assert_eq!(
        vector_kernel_args(Transpose::ConjugateTranspose, &rhs, &out),
        Ok(VectorKernelArgs { trans: 0x43, incx: 2, incy: 1 })
    );
}

#[test]
fn combine_and_copy_args() {
    assert_eq!(
        combine_args(ElementType::DoubleComplex, Transpose::NoTranspose, Transpose::Transpose),
        CombineArgs { type_code: b'Z', trans_a: 0x4E, trans_b: 0x54 }
    );
    assert_eq!(
        convert_args(ElementType::Float, Transpose::Transpose, true),
        CloneArgs { type_code: b'S', trans: 0x54, flags: 0x400 }
    );
    assert_eq!(
        convert_args(ElementType::Double, Transpose::NoTranspose, false),
        CloneArgs { type_code: b'D', trans: 0x4E, flags: 0 }
    );
    assert_eq!(clone_args(ElementType::Double), CloneArgs { type_code: b'D', trans: 0x4E, flags: 0 });
}

#[test]
fn indices_must_fit() {
    assert_eq!(to_index(0x7fff_ffff), Ok(0x7fff_ffff));
    assert_eq!(to_index(0x8000_0000), Err(Error::IndexOverflow { value: 0x8000_0000 }));
    assert_eq!(coordinate(3, 4), Ok((3, 4)));
    assert_eq!(coordinate(1 << 31, 4), Err(Error::IndexOverflow { value: 1 << 31 }));
    assert_eq!(coordinate(4, 1 << 32), Err(Error::IndexOverflow { value: 1 << 32 }));
}

#[test]
fn unzip_splits_entries() {
    let entries = [(0usize, 1usize, 1.5f64), (2, 0, -3.0)];
    let (rows, cols, vals) = unzip_entries(&entries).unwrap();
    assert_eq!(rows, vec![0, 2]);
    assert_eq!(cols, vec![1, 0]);
    assert_eq!(vals, vec![1.5, -3.0]);
    let bad = [(0usize, 0usize, 1.0f64), (5, 1 << 31, 2.0), (1 << 40, 0, 3.0)];
    assert_eq!(unzip_entries(&bad), Err(Error::IndexOverflow { value: 1 << 31 }));
    let empty: [(usize, usize, f64); 0] = [];
    assert_eq!(unzip_entries(&empty), Ok((vec![], vec![], vec![])));
}

#[test]
fn elementwise_codes() {
    assert_eq!(ElementwiseOp::Mul.code(), 1);
    assert_eq!(ElementwiseOp::Div.code(), 2);
    assert_eq!(ElementwiseOp::Pow.code(), 4);
    assert_eq!(ElementwiseOp::Neg.code(), 8);
    assert!(ElementwiseOp::Pow.takes_operand());
    assert!(!ElementwiseOp::Neg.takes_operand());
}

#[test]
fn status_codes() {
    assert_eq!(check(0), Ok(()));
    assert_eq!(check(-1), Err(Error::Rsb(-1)));
    assert_eq!(check(0x20), Err(Error::Rsb(0x20)));
    assert_eq!(Error::custom("bad".to_string()), Error::Custom("bad".to_string()));
}
