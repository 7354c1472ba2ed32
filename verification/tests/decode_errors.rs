//! Validation on decode: every rejection carries the array's name and
//! what was expected against what was found.

use sparse_npz::Array;
use sparse_npz::ArrayName;
use sparse_npz::Coo;
use sparse_npz::Csr;
use sparse_npz::Dia;
use sparse_npz::DTypeKind;
use sparse_npz::Elems;
use sparse_npz::FormatTag;
use sparse_npz::Npz;
use sparse_npz::NpzError;
use sparse_npz::Sparse;

fn format_array(tag: &[u8]) -> (ArrayName, Array<i64>) {
    (
        ArrayName::Format,
        Array {
            shape: vec![],
            order: sparse_npz::Order::C,
            elems: Elems::Bytes(vec![tag.to_vec()]),
        },
    )
}

fn i64_array(name: ArrayName, vals: Vec<i64>) -> (ArrayName, Array<i64>) {
    (
        name,
        Array {
            shape: vec![vals.len() as u64],
            order: sparse_npz::Order::C,
            elems: Elems::I64(vals),
        },
    )
}

fn data_array(vals: Vec<i64>) -> (ArrayName, Array<i64>) {
    (
        ArrayName::Data,
        Array {
            shape: vec![vals.len() as u64],
            order: sparse_npz::Order::C,
            elems: Elems::Plain(vals),
        },
    )
}

fn coo_container() -> Npz<i64> {
    Npz {
        arrays: vec![
            format_array(b"coo"),
            i64_array(ArrayName::Shape, vec![3, 4]),
            i64_array(ArrayName::Row, vec![0, 1]),
            i64_array(ArrayName::Col, vec![2, 3]),
            data_array(vec![5, 6]),
        ],
    }
}

#[test]
fn shape_of_length_3_is_invalid_shape() {
    let mut npz = coo_container();
    npz.arrays[1] = i64_array(ArrayName::Shape, vec![3, 4, 5]);
    let err = Coo::<i64>::from_npz(&npz).unwrap_err();
    assert_eq!(err, NpzError::InvalidShape { name: ArrayName::Shape, len: 3 });
}

#[test]
fn two_dimensional_row_is_invalid_rank() {
    let mut npz = coo_container();
    npz.arrays[2] = (
        ArrayName::Row,
        Array {
            shape: vec![2, 1],
            order: sparse_npz::Order::C,
            elems: Elems::I64(vec![0, 1]),
        },
    );
    let err = Coo::<i64>::from_npz(&npz).unwrap_err();
    assert_eq!(err, NpzError::InvalidRank { name: ArrayName::Row, expected: 1, actual: 2 });
}

#[test]
fn unknown_format_is_invalid_format_with_bytes_echoed() {
    let mut npz = coo_container();
    npz.arrays[0] = format_array(b"xyz");
    let err = Sparse::<i64>::from_npz(&npz).unwrap_err();
    assert_eq!(err, NpzError::InvalidFormat { raw: b"xyz".to_vec() });
}

#[test]
fn direct_decoder_on_foreign_tag_is_format_mismatch() {
    let mut npz = coo_container();
    npz.arrays[0] = format_array(b"csr");
    let err = Coo::<i64>::from_npz(&npz).unwrap_err();
    assert_eq!(
        err,
        NpzError::FormatMismatch { expected: FormatTag::Coo, actual: b"csr".to_vec() }
    );
}

#[test]
fn missing_array_is_reported_by_name() {
    let mut npz = coo_container();
    npz.arrays.remove(3);
    let err = Coo::<i64>::from_npz(&npz).unwrap_err();
    assert_eq!(err, NpzError::MissingArray { name: ArrayName::Col });
}

#[test]
fn missing_format_is_reported() {
    let mut npz = coo_container();
    npz.arrays.remove(0);
    let err = Sparse::<i64>::from_npz(&npz).unwrap_err();
    assert_eq!(err, NpzError::MissingArray { name: ArrayName::Format });
}

#[test]
fn format_of_wrong_rank_is_invalid_rank() {
    let mut npz = coo_container();
    npz.arrays[0] = (
        ArrayName::Format,
        Array {
            shape: vec![1],
            order: sparse_npz::Order::C,
            elems: Elems::Bytes(vec![b"coo".to_vec()]),
        },
    );
    let err = Sparse::<i64>::from_npz(&npz).unwrap_err();
    assert_eq!(err, NpzError::InvalidRank { name: ArrayName::Format, expected: 0, actual: 1 });
}

#[test]
fn non_integer_index_array_is_invalid_dtype() {
    let mut npz = coo_container();
    npz.arrays[2] = (
        ArrayName::Row,
        Array {
            shape: vec![2],
            order: sparse_npz::Order::C,
            elems: Elems::Plain(vec![0, 1]),
        },
    );
    let err = Coo::<i64>::from_npz(&npz).unwrap_err();
    assert_eq!(err, NpzError::InvalidDType { name: ArrayName::Row, dtype: DTypeKind::Plain });
}

#[test]
fn integer_data_where_plain_expected_is_passed_through() {
    let mut npz = coo_container();
    npz.arrays[4] = i64_array(ArrayName::Data, vec![5, 6]);
    let err = Coo::<i64>::from_npz(&npz).unwrap_err();
    assert_eq!(err, NpzError::BadElements { name: ArrayName::Data, dtype: DTypeKind::I64 });
}

#[test]
fn fortran_order_data_is_unsupported_for_dia() {
    let npz = Npz {
        arrays: vec![
            format_array(b"dia"),
            i64_array(ArrayName::Shape, vec![3, 3]),
            i64_array(ArrayName::Offsets, vec![0]),
            (
                ArrayName::Data,
                Array {
                    shape: vec![1, 3],
                    order: sparse_npz::Order::Fortran,
                    elems: Elems::Plain(vec![1, 2, 3]),
                },
            ),
        ],
    };
    let err = Dia::<i64>::from_npz(&npz).unwrap_err();
    assert_eq!(err, NpzError::UnsupportedOrder { name: ArrayName::Data });
}

#[test]
fn one_dimensional_data_for_dia_is_invalid_rank() {
    let npz = Npz {
        arrays: vec![
            format_array(b"dia"),
            i64_array(ArrayName::Shape, vec![3, 3]),
            i64_array(ArrayName::Offsets, vec![0]),
            data_array(vec![1, 2, 3]),
        ],
    };
    let err = Dia::<i64>::from_npz(&npz).unwrap_err();
    assert_eq!(err, NpzError::InvalidRank { name: ArrayName::Data, expected: 2, actual: 1 });
}

#[test]
fn errors_stop_at_the_first_failing_array() {
    // Both row and col are malformed; the row error is the one reported.
    let mut npz = coo_container();
    npz.arrays[2] = i64_array(ArrayName::Row, vec![]);
    npz.arrays[2].1.shape = vec![1, 0];
    npz.arrays[3] = data_array(vec![]);
    npz.arrays[3].0 = ArrayName::Col;
    let err = Coo::<i64>::from_npz(&npz).unwrap_err();
    assert_eq!(err, NpzError::InvalidRank { name: ArrayName::Row, expected: 1, actual: 2 });
}

#[test]
fn duplicate_names_use_the_first() {
    let mut npz = coo_container();
    npz.arrays.push(i64_array(ArrayName::Row, vec![9, 9]));
    let got = Coo::<i64>::from_npz(&npz).unwrap();
    assert_eq!(got.row, vec![0, 1]);
}

#[test]
fn csr_decoder_rejects_coo_container() {
    let npz = coo_container();
    let err = Csr::<i64>::from_npz(&npz).unwrap_err();
    assert_eq!(
        err,
        NpzError::FormatMismatch { expected: FormatTag::Csr, actual: b"coo".to_vec() }
    );
}
