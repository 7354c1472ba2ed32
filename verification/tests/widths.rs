//! Integer-width behaviour: the all-or-nothing width choice on write,
//! acceptance of both widths on read, and shape derivation for the
//! multi-dimensional variants.

use sparse_npz::Array;
use sparse_npz::ArrayName;
use sparse_npz::Bsr;
use sparse_npz::Coo;
use sparse_npz::Csr;
use sparse_npz::Dia;
use sparse_npz::Elems;
use sparse_npz::Npz;
use sparse_npz::Order;
use sparse_npz::error::show_format;

fn format_array(tag: &[u8]) -> (ArrayName, Array<i64>) {
    (
        ArrayName::Format,
        Array { shape: vec![], order: Order::C, elems: Elems::Bytes(vec![tag.to_vec()]) },
    )
}

fn i32_array(name: ArrayName, vals: Vec<i32>) -> (ArrayName, Array<i64>) {
    (
        name,
        Array { shape: vec![vals.len() as u64], order: Order::C, elems: Elems::I32(vals) },
    )
}

fn i64_array(name: ArrayName, vals: Vec<i64>) -> (ArrayName, Array<i64>) {
    (
        name,
        Array { shape: vec![vals.len() as u64], order: Order::C, elems: Elems::I64(vals) },
    )
}

fn data_array(vals: Vec<i64>) -> (ArrayName, Array<i64>) {
    (
        ArrayName::Data,
        Array { shape: vec![vals.len() as u64], order: Order::C, elems: Elems::Plain(vals) },
    )
}

#[test]
fn index_at_2_to_31_selects_wide_storage() {
    let m = Coo {
        shape: [1, 3_000_000_000],
        data: vec![1i64],
        row: vec![0],
        col: vec![2147483648],
    };
    let npz = m.write_npz();
    assert_eq!(npz.arrays[3].0, ArrayName::Col);
    match &npz.arrays[3].1.elems {
        Elems::I64(v) => assert_eq!(v, &vec![2147483648i64]),
        other => panic!("expected 8-byte storage, got {:?}", other),
    }
}

#[test]
fn index_maximum_just_below_2_to_31_selects_narrow_storage() {
    let m = Coo {
        shape: [1, 3_000_000_000],
        data: vec![1i64],
        row: vec![0],
        col: vec![2147483647],
    };
    let npz = m.write_npz();
    match &npz.arrays[3].1.elems {
        Elems::I32(v) => assert_eq!(v, &vec![2147483647i32]),
        other => panic!("expected 4-byte storage, got {:?}", other),
    }
}

#[test]
fn width_choice_is_all_or_nothing_per_array() {
    // One oversize value forces the whole array wide, values that would
    // fit included.
    let m = Csr {
        shape: [2, 5_000_000_000],
        data: vec![1i64, 2],
        indices: vec![0, 4_000_000_000],
        indptr: vec![0, 1, 2],
    };
    let npz = m.write_npz();
    match &npz.arrays[2].1.elems {
        Elems::I64(v) => assert_eq!(v, &vec![0, 4_000_000_000]),
        other => panic!("expected 8-byte storage, got {:?}", other),
    }
    // indptr fits, and is chosen narrow independently.
    match &npz.arrays[3].1.elems {
        Elems::I32(v) => assert_eq!(v, &vec![0, 1, 2]),
        other => panic!("expected 4-byte storage, got {:?}", other),
    }
}

#[test]
fn offset_below_i32_min_selects_wide_storage() {
    // The fit test is against the whole signed 32-bit range, not only
    // its upper end.
    let m = Dia {
        shape: [5_000_000_000, 5_000_000_000],
        data: vec![1i64],
        offsets: vec![-2147483649],
    };
    let npz = m.write_npz();
    match &npz.arrays[2].1.elems {
        Elems::I64(v) => assert_eq!(v, &vec![-2147483649i64]),
        other => panic!("expected 8-byte storage, got {:?}", other),
    }
}

#[test]
fn decoded_result_is_identical_for_either_authored_width() {
    let narrow = Npz {
        arrays: vec![
            format_array(b"csr"),
            i32_array(ArrayName::Shape, vec![2, 3]),
            i32_array(ArrayName::Indices, vec![2, 0, 1]),
            i32_array(ArrayName::Indptr, vec![0, 1, 3]),
            data_array(vec![7, 8, 9]),
        ],
    };
    let wide = Npz {
        arrays: vec![
            format_array(b"csr"),
            i64_array(ArrayName::Shape, vec![2, 3]),
            i64_array(ArrayName::Indices, vec![2, 0, 1]),
            i64_array(ArrayName::Indptr, vec![0, 1, 3]),
            data_array(vec![7, 8, 9]),
        ],
    };
    let from_narrow = Csr::<i64>::from_npz(&narrow).unwrap();
    let from_wide = Csr::<i64>::from_npz(&wide).unwrap();
    assert_eq!(from_narrow, from_wide);
    assert_eq!(from_narrow.shape, [2, 3]);
    assert_eq!(from_narrow.indices, vec![2, 0, 1]);
    assert_eq!(from_narrow.indptr, vec![0, 1, 3]);
    assert_eq!(from_narrow.data, vec![7, 8, 9]);
}

#[test]
fn negative_narrow_index_sign_extends() {
    // A 4-byte -1 widens to the all-ones unsigned index, exactly as the
    // same bit pattern stored at 8 bytes would.
    let npz = Npz {
        arrays: vec![
            format_array(b"coo"),
            i32_array(ArrayName::Shape, vec![1, 1]),
            i32_array(ArrayName::Row, vec![-1]),
            i64_array(ArrayName::Col, vec![-1]),
            data_array(vec![5]),
        ],
    };
    let got = Coo::<i64>::from_npz(&npz).unwrap();
    assert_eq!(got.row, vec![u64::MAX]);
    assert_eq!(got.col, vec![u64::MAX]);
}

#[test]
fn dia_length_derives_from_data_shape() {
    // Data declared [3, 7] with three offsets: each stored diagonal has
    // length 7 = 21 / 3.
    let npz = Npz {
        arrays: vec![
            format_array(b"dia"),
            i32_array(ArrayName::Shape, vec![7, 9]),
            i32_array(ArrayName::Offsets, vec![-1, 0, 2]),
            (
                ArrayName::Data,
                Array {
                    shape: vec![3, 7],
                    order: Order::C,
                    elems: Elems::Plain((0i64..21).collect()),
                },
            ),
        ],
    };
    let got = Dia::<i64>::from_npz(&npz).unwrap();
    assert_eq!(got.data.len(), 21);
    assert_eq!(got.offsets.len(), 3);
    assert_eq!(got.data.len() / got.offsets.len(), 7);
}

#[test]
fn bsr_blocksize_derives_from_data_shape() {
    // Data declared [5, 2, 4] with five stored blocks: blocksize [2, 4].
    let npz = Npz {
        arrays: vec![
            format_array(b"bsr"),
            i32_array(ArrayName::Shape, vec![10, 20]),
            i32_array(ArrayName::Indices, vec![0, 1, 2, 3, 4]),
            i32_array(ArrayName::Indptr, vec![0, 1, 2, 3, 4, 5]),
            (
                ArrayName::Data,
                Array {
                    shape: vec![5, 2, 4],
                    order: Order::C,
                    elems: Elems::Plain((0i64..40).collect()),
                },
            ),
        ],
    };
    let got = Bsr::<i64>::from_npz(&npz).unwrap();
    assert_eq!(got.blocksize, [2, 4]);
    assert_eq!(got.indices.len(), 5);
}

#[test]
fn show_format_renders_printable_bytes() {
    assert_eq!(show_format(&b"xyz".to_vec()), b"'xyz'".to_vec());
}

#[test]
fn show_format_escapes_unprintable_bytes() {
    assert_eq!(show_format(&vec![0x01, b'a', 0xAB]), b"'\\x01a\\xAB'".to_vec());
}
