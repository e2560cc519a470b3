use rsb::{Error, MajorOrder, Matrix, MatrixMut, Vector, VectorMut};

#[test]
fn vector_stride_divides_length() {
    let buf = [1.0f64, 2.0, 3.0, 4.0, 5.0, 6.0];
    for stride in 1..=6usize {
        let r = Vector::from_strided_slice(stride, &buf);
        if buf.len() % stride == 0 {
            assert_eq!(r.unwrap().stride(), stride);
        } else {
            assert_eq!(r.unwrap_err(), Error::InvalidStride { stride, len: 6 });
        }
    }
}

#[test]
fn vector_zero_stride_is_rejected() {
    let buf = [1.0f64, 2.0];
    let r = Vector::from_strided_slice(0, &buf);
    assert_eq!(r.unwrap_err(), Error::InvalidStride { stride: 0, len: 2 });
    let mut out = [0.0f64; 2];
    let r = VectorMut::from_strided_slice(0, &mut out);
    assert_eq!(r.unwrap_err(), Error::InvalidStride { stride: 0, len: 2 });
}

#[test]
fn vector_empty_buffer_accepts_any_positive_stride() {
    let buf: [f64; 0] = [];
    assert!(Vector::from_strided_slice(3, &buf).is_ok());
    let mut out: [f64; 0] = [];
    assert!(VectorMut::from_strided_slice(3, &mut out).is_ok());
}

#[test]
fn vector_mut_stride_not_dividing_is_rejected() {
    let mut out = [0.0f64; 5];
    let r = VectorMut::from_strided_slice(2, &mut out);
    assert_eq!(r.unwrap_err(), Error::InvalidStride { stride: 2, len: 5 });
}

#[test]
fn vector_from_slice_has_unit_stride() {
    let buf = [1.0f64, 2.0, 3.0];
    let v = Vector::from_slice(&buf);
    assert_eq!(v.stride(), 1);
    assert_eq!(v.slice(), &buf[..]);
    let v2: Vector<f64> = Vector::from(&buf[..]);
    assert_eq!(v2.stride(), 1);
    assert_eq!(v.clone(), v2);
}

#[test]
fn vector_mut_writes_reach_buffer() {
    let mut out = [0.0f64; 4];
    {
        let mut v = VectorMut::from_strided_slice(2, &mut out).unwrap();
        assert_eq!(v.stride(), 2);
        v.slice()[3] = 7.0;
    }
    assert_eq!(out, [0.0, 0.0, 0.0, 7.0]);
    let mut other = [1.0f64; 2];
    let v: VectorMut<f64> = VectorMut::from(&mut other[..]);
    assert_eq!(v.stride(), 1);
}

#[test]
fn matrix_shape_must_match_length() {
    let buf = [1.0f64; 6];
    let m = Matrix::from_slice(2, 3, MajorOrder::Row, &buf).unwrap();
    assert_eq!(m.hw(), [2, 3]);
    assert_eq!(m.order(), MajorOrder::Row);
    let e = Matrix::from_slice(4, 2, MajorOrder::Column, &buf).unwrap_err();
    assert_eq!(e, Error::ShapeMismatch { nrows: 4, ncols: 2, len: 6 });
    let e = Matrix::from_row_slice(1, 5, &buf).unwrap_err();
    assert_eq!(e, Error::ShapeMismatch { nrows: 1, ncols: 5, len: 6 });
}

#[test]
fn matrix_shape_overflowing_product_is_rejected() {
    let buf = [1.0f64; 4];
    let e = Matrix::from_col_slice(usize::MAX, 2, &buf).unwrap_err();
    assert_eq!(e, Error::ShapeMismatch { nrows: usize::MAX, ncols: 2, len: 4 });
}

#[test]
fn matrix_empty_shape() {
    let buf: [f64; 0] = [];
    let m = Matrix::from_col_slice(0, 5, &buf).unwrap();
    assert_eq!(m.hw(), [0, 5]);
    assert_eq!(m.leading_dimension(), 0);
    assert_eq!(m.num_vecs(), 5);
}

#[test]
fn matrix_leading_dimension_follows_order() {
    let buf = [0.0f64; 6];
    let col = Matrix::from_col_slice(2, 3, &buf).unwrap();
    assert_eq!(col.leading_dimension(), 2);
    assert_eq!(col.num_vecs(), 3);
    let row = Matrix::from_row_slice(2, 3, &buf).unwrap();
    assert_eq!(row.leading_dimension(), 3);
    assert_eq!(row.num_vecs(), 2);
    assert_eq!(row.slice().len(), 6);
    assert_eq!(row.clone(), row);
}

#[test]
fn matrix_from_arrays() {
    let cols = [[1.0f64, 2.0, 3.0], [4.0, 5.0, 6.0]];
    let m = Matrix::from_col_array(&cols);
    assert_eq!(m.order(), MajorOrder::Column);
    assert_eq!(m.hw(), [3, 2]);
    assert_eq!(m.leading_dimension(), 3);
    assert_eq!(m.num_vecs(), 2);
    assert_eq!(m.slice(), &[1.0, 2.0, 3.0, 4.0, 5.0, 6.0][..]);

    let rows = [[1.0f64, 2.0, 3.0], [4.0, 5.0, 6.0]];
    let m = Matrix::from_row_array(&rows);
    assert_eq!(m.order(), MajorOrder::Row);
    assert_eq!(m.hw(), [2, 3]);
    assert_eq!(m.leading_dimension(), 3);
    assert_eq!(m.num_vecs(), 2);

    let m = Matrix::from_array(MajorOrder::Column, &rows);
    assert_eq!(m.hw(), [3, 2]);
}

#[test]
fn matrix_mut_shape_and_writes() {
    let mut buf = [0.0f64; 4];
    let e = MatrixMut::from_slice(3, 3, MajorOrder::Row, &mut buf).unwrap_err();
    assert_eq!(e, Error::ShapeMismatch { nrows: 3, ncols: 3, len: 4 });
    {
        let mut m = MatrixMut::from_row_slice(1, 4, &mut buf).unwrap();
        assert_eq!(m.hw(), [1, 4]);
        assert_eq!(m.order(), MajorOrder::Row);
        assert_eq!(m.leading_dimension(), 4);
        assert_eq!(m.num_vecs(), 1);
        m.slice()[2] = 9.0;
    }
    assert_eq!(buf, [0.0, 0.0, 9.0, 0.0]);
    let m = MatrixMut::from_col_slice(4, 1, &mut buf).unwrap();
    assert_eq!(m.leading_dimension(), 4);
}

#[test]
fn matrix_mut_from_arrays_write_through() {
    let mut arr = [[0.0f64; 2]; 3];
    {
        let mut m = MatrixMut::from_row_array(&mut arr);
        assert_eq!(m.hw(), [3, 2]);
        m.slice()[3] = 1.5;
    }
    assert_eq!(arr[1][1], 1.5);
    let mut arr2 = [[0.0f64; 2]; 3];
    let m = MatrixMut::from_col_array(&mut arr2);
    assert_eq!(m.hw(), [2, 3]);
    assert_eq!(m.order(), MajorOrder::Column);
    let mut arr3 = [[0.0f64; 4]; 1];
    let m = MatrixMut::from_array(MajorOrder::Row, &mut arr3);
    assert_eq!(m.hw(), [1, 4]);
}
