//! Round trips: for every variant, decoding what encode wrote restores
//! the record exactly, including awkward index and partition values.

use sparse_npz::Bsr;
use sparse_npz::Coo;
use sparse_npz::Csc;
use sparse_npz::Csr;
use sparse_npz::Dia;
use sparse_npz::Sparse;
use sparse_npz::ArrayName;
use sparse_npz::Elems;

#[test]
fn coo_round_trip() {
    let m = Coo {
        shape: [3, 4],
        data: vec![10i64, 20, 30],
        row: vec![0, 1, 2],
        col: vec![3, 0, 1],
    };
    let npz = m.write_npz();
    let back = Coo::<i64>::from_npz(&npz).unwrap();
    assert_eq!(back, m);
}

#[test]
fn csr_round_trip_with_lawless_indptr() {
    // indptr unsorted, not starting at 0, not ending at nnz: the codec
    // must carry it through untouched.
    let m = Csr {
        shape: [2, 5],
        data: vec![7i64, 8, 9],
        indices: vec![4, 0, 2],
        indptr: vec![5, 2, 7],
    };
    let npz = m.write_npz();
    let back = Csr::<i64>::from_npz(&npz).unwrap();
    assert_eq!(back, m);
}

#[test]
fn csc_round_trip() {
    let m = Csc {
        shape: [5, 2],
        data: vec![1i64, 2, 3],
        indices: vec![1, 4, 0],
        indptr: vec![0, 2, 3],
    };
    let npz = m.write_npz();
    let back = Csc::<i64>::from_npz(&npz).unwrap();
    assert_eq!(back, m);
}

#[test]
fn dia_round_trip_negative_offsets() {
    let m = Dia {
        shape: [7, 7],
        data: (0i64..21).collect::<Vec<i64>>(),
        offsets: vec![-2, 0, 3],
    };
    let npz = m.write_npz();
    let back = Dia::<i64>::from_npz(&npz).unwrap();
    assert_eq!(back, m);
}

#[test]
fn bsr_round_trip() {
    let m = Bsr {
        shape: [10, 20],
        blocksize: [2, 4],
        data: (0i64..40).collect::<Vec<i64>>(),
        indices: vec![3, 0, 4, 1, 2],
        indptr: vec![0, 2, 3, 5, 5, 5],
    };
    let npz = m.write_npz();
    let back = Bsr::<i64>::from_npz(&npz).unwrap();
    assert_eq!(back, m);
}

#[test]
fn sparse_round_trip_dispatches_on_tag() {
    let m = Sparse::Csr(Csr {
        shape: [2, 2],
        data: vec![5i64],
        indices: vec![1],
        indptr: vec![0, 0, 1],
    });
    let npz = m.write_npz();
    let back = Sparse::<i64>::from_npz(&npz).unwrap();
    assert_eq!(back, m);
}

#[test]
fn huge_index_survives_round_trip() {
    // u64::MAX wraps to -1 on disk, which even fits the narrow width;
    // sign extension on read restores the original value.
    let m = Coo {
        shape: [u64::MAX, 2],
        data: vec![1i64],
        row: vec![u64::MAX],
        col: vec![1 << 63],
    };
    let npz = m.write_npz();
    let back = Coo::<i64>::from_npz(&npz).unwrap();
    assert_eq!(back, m);
}

#[test]
fn empty_coo_round_trip() {
    let m = Coo {
        shape: [0, 0],
        data: Vec::<i64>::new(),
        row: vec![],
        col: vec![],
    };
    let npz = m.write_npz();
    let back = Coo::<i64>::from_npz(&npz).unwrap();
    assert_eq!(back, m);
}

#[test]
fn write_order_is_format_first_data_last() {
    let m = Csr {
        shape: [2, 2],
        data: vec![5i64],
        indices: vec![1],
        indptr: vec![0, 0, 1],
    };
    let npz = m.write_npz();
    let names: Vec<ArrayName> = npz.arrays.iter().map(|p| p.0).collect();
    assert_eq!(
        names,
        vec![
            ArrayName::Format,
            ArrayName::Shape,
            ArrayName::Indices,
            ArrayName::Indptr,
            ArrayName::Data,
        ]
    );
}

#[test]
fn format_written_as_three_bytes() {
    let m = Dia { shape: [2, 2], data: vec![1i64, 2], offsets: vec![0, 1] };
    let npz = m.write_npz();
    assert_eq!(npz.arrays[0].1.shape, Vec::<u64>::new());
    match &npz.arrays[0].1.elems {
        Elems::Bytes(v) => assert_eq!(v, &vec![b"dia".to_vec()]),
        other => panic!("unexpected dtype for the discriminator: {:?}", other),
    }
}

#[test]
fn shape_written_at_default_width() {
    let m = Coo { shape: [6, 8], data: vec![1i64], row: vec![0], col: vec![0] };
    let npz = m.write_npz();
    assert_eq!(npz.arrays[1].1.shape, vec![2]);
    match &npz.arrays[1].1.elems {
        Elems::I64(v) => assert_eq!(v, &vec![6, 8]),
        other => panic!("unexpected dtype for the dimension array: {:?}", other),
    }
}

#[test]
fn dia_data_written_rank_2() {
    let m = Dia {
        shape: [7, 7],
        data: (0i64..21).collect::<Vec<i64>>(),
        offsets: vec![-2, 0, 3],
    };
    let npz = m.write_npz();
    let data_entry = &npz.arrays[3];
    assert_eq!(data_entry.0, ArrayName::Data);
    assert_eq!(data_entry.1.shape, vec![7, 3]);
}

#[test]
fn bsr_data_written_rank_3() {
    let m = Bsr {
        shape: [4, 8],
        blocksize: [2, 4],
        data: (0i64..24).collect::<Vec<i64>>(),
        indices: vec![0, 1, 1],
        indptr: vec![0, 2, 3],
    };
    let npz = m.write_npz();
    let data_entry = &npz.arrays[4];
    assert_eq!(data_entry.0, ArrayName::Data);
    assert_eq!(data_entry.1.shape, vec![3, 2, 4]);
}
