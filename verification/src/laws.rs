//! The codec's round-trip guarantees, proved of the decode and encode
//! specifications that the executable engines are verified against.

use vstd::prelude::*;

use crate::error::ErrV;
use crate::npz::ArrayName;
use crate::npz::ArrayV;
use crate::npz::ElemsV;
use crate::npz::FormatTag;
use crate::npz::NpzV;
use crate::npz::s_fetch;
use crate::npz::tag_bytes;
use crate::read::s_decode_bsr;
use crate::read::s_decode_coo;
use crate::read::s_decode_csc;
use crate::read::s_decode_csr;
use crate::read::s_decode_dia;
use crate::read::s_decode_sparse;
use crate::read::s_expect_format;
use crate::read::s_extract_1d;
use crate::read::s_extract_indices;
use crate::read::s_extract_nd;
use crate::read::s_extract_scalar;
use crate::read::s_extract_shape;
use crate::read::s_extract_signed_indices;
use crate::read::s_extract_usize_indices;
use crate::sparse::BsrV;
use crate::sparse::CooV;
use crate::sparse::CscV;
use crate::sparse::CsrV;
use crate::sparse::DiaV;
use crate::sparse::SparseV;
use crate::width::all_fit_i32;
use crate::width::ext32;
use crate::width::ext64;
use crate::width::lemma_ext32_is_ext64;
use crate::width::lemma_ext64_wrap64;
use crate::width::lemma_narrow_widen;
use crate::width::lemma_usize_round;
use crate::width::wrap64;
use crate::width::wrap_usize;
use crate::write::s_data_array;
use crate::write::s_encode_bsr;
use crate::write::s_encode_coo;
use crate::write::s_encode_csc;
use crate::write::s_encode_csr;
use crate::write::s_encode_dia;
use crate::write::s_encode_sparse;
use crate::write::s_format_array;
use crate::write::s_index_array;
use crate::write::s_shape_array;
use crate::write::s_encode_ok;
use crate::write::s_wrap_seq;
use crate::write::s_wrap_usize_seq;

verus! {

// ---------------------------------------------------------------------
// Reading back single arrays that an encoder wrote.

/// A lookup lands on position `i` when no earlier entry bears the name.
proof fn lemma_fetch_in<T>(n: NpzV<T>, name: ArrayName, i: int)
    requires
        0 <= i < n.len(),
        n[i].0 == name,
        forall|j: int| 0 <= j < i ==> (#[trigger] n[j]).0 != name,
    ensures
        s_fetch(n, name) == Some(n[i].1),
    decreases i,
{
    if i == 0 {
    } else {
        let nd = n.drop_first();
        assert(nd[i - 1] == n[i]);
        assert forall|j: int| 0 <= j < i - 1 implies (#[trigger] nd[j]).0 != name by {
            assert(nd[j] == n[j + 1]);
        }
        lemma_fetch_in(nd, name, i - 1);
    }
}

/// A written discriminator array reads back as its tag.
proof fn lemma_read_format<T>(n: NpzV<T>, tag: FormatTag)
    requires
        s_fetch(n, ArrayName::Format) == Some(s_format_array::<T>(tag)),
    ensures
        s_extract_scalar(n, ArrayName::Format) == Ok::<Seq<u8>, ErrV>(tag_bytes(tag)),
        s_expect_format(n, tag) == Ok::<(), ErrV>(()),
{
    assert(s_format_array::<T>(tag).shape.len() == 0);
    assert(seq![tag_bytes(tag)][0] == tag_bytes(tag));
}

/// A written dimension array reads back as the record's shape.
proof fn lemma_read_shape<T>(n: NpzV<T>, shape: (u64, u64))
    requires
        s_fetch(n, ArrayName::Shape) == Some(s_shape_array::<T>(shape)),
    ensures
        s_extract_shape(n, ArrayName::Shape) == Ok::<(u64, u64), ErrV>(shape),
{
    let stored = seq![wrap64(shape.0), wrap64(shape.1)];
    let back = stored.map_values(|x: i64| ext64(x));
    assert(s_extract_indices(n, ArrayName::Shape) == Ok::<Seq<u64>, ErrV>(back));
    lemma_ext64_wrap64(shape.0);
    lemma_ext64_wrap64(shape.1);
    assert(back =~= seq![shape.0, shape.1]);
}

/// Whichever width the encoder chose, a written index array widens back
/// to the unsigned values it was given.
proof fn lemma_read_indices<T>(n: NpzV<T>, name: ArrayName, v: Seq<u64>)
    requires
        s_fetch(n, name) == Some(s_index_array::<T>(s_wrap_seq(v))),
    ensures
        s_extract_indices(n, name) == Ok::<Seq<u64>, ErrV>(v),
{
    let w = s_wrap_seq(v);
    assert(s_index_array::<T>(w).shape.len() == 1);
    if all_fit_i32(w) {
        let narrow = w.map_values(|x: i64| x as i32);
        let back = narrow.map_values(|x: i32| ext32(x));
        assert forall|i: int| 0 <= i < v.len() implies back[i] == v[i] by {
            assert(w[i] == wrap64(v[i]));
            assert(i32::MIN <= w[i] <= i32::MAX);
            lemma_narrow_widen(w[i]);
            lemma_ext32_is_ext64(w[i] as i32);
            lemma_ext64_wrap64(v[i]);
        }
        assert(back =~= v);
    } else {
        let back = w.map_values(|x: i64| ext64(x));
        assert forall|i: int| 0 <= i < v.len() implies back[i] == v[i] by {
            assert(w[i] == wrap64(v[i]));
            lemma_ext64_wrap64(v[i]);
        }
        assert(back =~= v);
    }
}

/// A written partition array reads back, reduced to the platform's
/// index width, as the values it was given.
proof fn lemma_read_usize_indices<T>(n: NpzV<T>, name: ArrayName, v: Seq<usize>)
    requires
        s_fetch(n, name) == Some(s_index_array::<T>(s_wrap_usize_seq(v))),
    ensures
        s_extract_usize_indices(n, name) == Ok::<Seq<usize>, ErrV>(v),
{
    let unsigned = v.map_values(|x: usize| x as u64);
    assert(s_wrap_usize_seq(v) =~= s_wrap_seq(unsigned));
    lemma_read_indices::<T>(n, name, unsigned);
    let back = unsigned.map_values(|x: u64| wrap_usize(x));
    assert forall|i: int| 0 <= i < v.len() implies back[i] == v[i] by {
        lemma_usize_round(v[i]);
    }
    assert(back =~= v);
}

/// A written offset array reads back, sign-extended, as the signed
/// values it was given.
proof fn lemma_read_signed_indices<T>(n: NpzV<T>, name: ArrayName, v: Seq<i64>)
    requires
        s_fetch(n, name) == Some(s_index_array::<T>(v)),
    ensures
        s_extract_signed_indices(n, name) == Ok::<Seq<i64>, ErrV>(v),
{
    assert(s_index_array::<T>(v).shape.len() == 1);
    if all_fit_i32(v) {
        let narrow = v.map_values(|x: i64| x as i32);
        let back = narrow.map_values(|x: i32| x as i64);
        assert forall|i: int| 0 <= i < v.len() implies back[i] == v[i] by {
            lemma_narrow_widen(v[i]);
        }
        assert(back =~= v);
    }
}

/// A written data array reads back as the elements and declared shape
/// it was given.
proof fn lemma_read_data<T>(n: NpzV<T>, data: Seq<T>, dims: Seq<u64>)
    requires
        s_fetch(n, ArrayName::Data) == Some(s_data_array::<T>(data, dims)),
    ensures
        dims.len() == 1 ==> s_extract_1d(n, ArrayName::Data) == Ok::<Seq<T>, ErrV>(data),
        s_extract_nd(n, ArrayName::Data, dims.len() as int) == Ok::<(Seq<T>, Seq<usize>), ErrV>(
            (data, dims.map_values(|x: u64| wrap_usize(x))),
        ),
{
}

// ---------------------------------------------------------------------
// Round trips.

/// Every variant of a freshly written coordinate container reads back:
/// decoding what encode wrote restores the record exactly, whatever its
/// index values and however its partition values are arranged.
pub proof fn lemma_coo_round_trip<T>(m: CooV<T>)
    ensures
        s_decode_coo(s_encode_coo(m)) == Ok::<CooV<T>, ErrV>(m),
{
    let n = s_encode_coo::<T>(m);
    lemma_fetch_in(n, ArrayName::Format, 0);
    lemma_fetch_in(n, ArrayName::Shape, 1);
    assert forall|j: int| 0 <= j < 2 implies (#[trigger] n[j]).0 != ArrayName::Row by {
        if j == 0 {
        } else {
            assert(n[1].0 == ArrayName::Shape);
        }
    }
    lemma_fetch_in(n, ArrayName::Row, 2);
    assert forall|j: int| 0 <= j < 3 implies (#[trigger] n[j]).0 != ArrayName::Col by {
        if j == 0 {
        } else if j == 1 {
        } else {
            assert(n[2].0 == ArrayName::Row);
        }
    }
    lemma_fetch_in(n, ArrayName::Col, 3);
    assert forall|j: int| 0 <= j < 4 implies (#[trigger] n[j]).0 != ArrayName::Data by {
        assert(n[0].0 == ArrayName::Format && n[1].0 == ArrayName::Shape && n[2].0
            == ArrayName::Row && n[3].0 == ArrayName::Col);
    }
    lemma_fetch_in(n, ArrayName::Data, 4);
    lemma_read_format::<T>(n, FormatTag::Coo);
    lemma_read_shape::<T>(n, m.shape);
    lemma_read_indices::<T>(n, ArrayName::Row, m.row);
    lemma_read_indices::<T>(n, ArrayName::Col, m.col);
    lemma_read_data::<T>(n, m.data, seq![m.data.len() as u64]);
}

/// As [`lemma_coo_round_trip`], for compressed-row records; partition
/// values that are unsorted, or do not start at zero or end at the
/// stored-entry count, survive all the same.
pub proof fn lemma_csr_round_trip<T>(m: CsrV<T>)
    ensures
        s_decode_csr(s_encode_csr(m)) == Ok::<CsrV<T>, ErrV>(m),
{
    let n = s_encode_csr::<T>(m);
    lemma_fetch_in(n, ArrayName::Format, 0);
    lemma_fetch_in(n, ArrayName::Shape, 1);
    assert forall|j: int| 0 <= j < 2 implies (#[trigger] n[j]).0 != ArrayName::Indices by {
        assert(n[0].0 == ArrayName::Format && n[1].0 == ArrayName::Shape);
    }
    lemma_fetch_in(n, ArrayName::Indices, 2);
    assert forall|j: int| 0 <= j < 3 implies (#[trigger] n[j]).0 != ArrayName::Indptr by {
        assert(n[0].0 == ArrayName::Format && n[1].0 == ArrayName::Shape && n[2].0
            == ArrayName::Indices);
    }
    lemma_fetch_in(n, ArrayName::Indptr, 3);
    assert forall|j: int| 0 <= j < 4 implies (#[trigger] n[j]).0 != ArrayName::Data by {
        assert(n[0].0 == ArrayName::Format && n[1].0 == ArrayName::Shape && n[2].0
            == ArrayName::Indices && n[3].0 == ArrayName::Indptr);
    }
    lemma_fetch_in(n, ArrayName::Data, 4);
    lemma_read_format::<T>(n, FormatTag::Csr);
    lemma_read_shape::<T>(n, m.shape);
    lemma_read_indices::<T>(n, ArrayName::Indices, m.indices);
    lemma_read_usize_indices::<T>(n, ArrayName::Indptr, m.indptr);
    lemma_read_data::<T>(n, m.data, seq![m.data.len() as u64]);
}

/// As [`lemma_csr_round_trip`], for compressed-column records.
pub proof fn lemma_csc_round_trip<T>(m: CscV<T>)
    ensures
        s_decode_csc(s_encode_csc(m)) == Ok::<CscV<T>, ErrV>(m),
{
    let n = s_encode_csc::<T>(m);
    lemma_fetch_in(n, ArrayName::Format, 0);
    lemma_fetch_in(n, ArrayName::Shape, 1);
    assert forall|j: int| 0 <= j < 2 implies (#[trigger] n[j]).0 != ArrayName::Indices by {
        assert(n[0].0 == ArrayName::Format && n[1].0 == ArrayName::Shape);
    }
    lemma_fetch_in(n, ArrayName::Indices, 2);
    assert forall|j: int| 0 <= j < 3 implies (#[trigger] n[j]).0 != ArrayName::Indptr by {
        assert(n[0].0 == ArrayName::Format && n[1].0 == ArrayName::Shape && n[2].0
            == ArrayName::Indices);
    }
    lemma_fetch_in(n, ArrayName::Indptr, 3);
    assert forall|j: int| 0 <= j < 4 implies (#[trigger] n[j]).0 != ArrayName::Data by {
        assert(n[0].0 == ArrayName::Format && n[1].0 == ArrayName::Shape && n[2].0
            == ArrayName::Indices && n[3].0 == ArrayName::Indptr);
    }
    lemma_fetch_in(n, ArrayName::Data, 4);
    lemma_read_format::<T>(n, FormatTag::Csc);
    lemma_read_shape::<T>(n, m.shape);
    lemma_read_indices::<T>(n, ArrayName::Indices, m.indices);
    lemma_read_usize_indices::<T>(n, ArrayName::Indptr, m.indptr);
    lemma_read_data::<T>(n, m.data, seq![m.data.len() as u64]);
}

/// As [`lemma_coo_round_trip`], for diagonal records whose data divides
/// into one row per stored diagonal, as the encoder requires.
pub proof fn lemma_dia_round_trip<T>(m: DiaV<T>)
    requires
        m.offsets.len() != 0,
        m.data.len() % m.offsets.len() == 0,
    ensures
        s_decode_dia(s_encode_dia(m)) == Ok::<DiaV<T>, ErrV>(m),
{
    let n = s_encode_dia::<T>(m);
    lemma_fetch_in(n, ArrayName::Format, 0);
    lemma_fetch_in(n, ArrayName::Shape, 1);
    assert forall|j: int| 0 <= j < 2 implies (#[trigger] n[j]).0 != ArrayName::Offsets by {
        assert(n[0].0 == ArrayName::Format && n[1].0 == ArrayName::Shape);
    }
    lemma_fetch_in(n, ArrayName::Offsets, 2);
    assert forall|j: int| 0 <= j < 3 implies (#[trigger] n[j]).0 != ArrayName::Data by {
        assert(n[0].0 == ArrayName::Format && n[1].0 == ArrayName::Shape && n[2].0
            == ArrayName::Offsets);
    }
    lemma_fetch_in(n, ArrayName::Data, 3);
    lemma_read_format::<T>(n, FormatTag::Dia);
    lemma_read_shape::<T>(n, m.shape);
    lemma_read_signed_indices::<T>(n, ArrayName::Offsets, m.offsets);
    let dims = seq![
        ((m.data.len() as int / m.offsets.len() as int) as u64),
        m.offsets.len() as u64,
    ];
    lemma_read_data::<T>(n, m.data, dims);
}

/// As [`lemma_coo_round_trip`], for block-row records whose data length
/// matches one block per stored supercolumn index, as the encoder
/// requires; in particular the block size written into the data array's
/// trailing dimensions is recovered exactly.
pub proof fn lemma_bsr_round_trip<T>(m: BsrV<T>)
    requires
        m.data.len() == m.indices.len() * m.blocksize.0 * m.blocksize.1,
    ensures
        s_decode_bsr(s_encode_bsr(m)) == Ok::<BsrV<T>, ErrV>(m),
{
    let n = s_encode_bsr::<T>(m);
    lemma_fetch_in(n, ArrayName::Format, 0);
    lemma_fetch_in(n, ArrayName::Shape, 1);
    assert forall|j: int| 0 <= j < 2 implies (#[trigger] n[j]).0 != ArrayName::Indices by {
        assert(n[0].0 == ArrayName::Format && n[1].0 == ArrayName::Shape);
    }
    lemma_fetch_in(n, ArrayName::Indices, 2);
    assert forall|j: int| 0 <= j < 3 implies (#[trigger] n[j]).0 != ArrayName::Indptr by {
        assert(n[0].0 == ArrayName::Format && n[1].0 == ArrayName::Shape && n[2].0
            == ArrayName::Indices);
    }
    lemma_fetch_in(n, ArrayName::Indptr, 3);
    assert forall|j: int| 0 <= j < 4 implies (#[trigger] n[j]).0 != ArrayName::Data by {
        assert(n[0].0 == ArrayName::Format && n[1].0 == ArrayName::Shape && n[2].0
            == ArrayName::Indices && n[3].0 == ArrayName::Indptr);
    }
    lemma_fetch_in(n, ArrayName::Data, 4);
    lemma_read_format::<T>(n, FormatTag::Bsr);
    lemma_read_shape::<T>(n, m.shape);
    lemma_read_indices::<T>(n, ArrayName::Indices, m.indices);
    lemma_read_usize_indices::<T>(n, ArrayName::Indptr, m.indptr);
    let dims = seq![m.indices.len() as u64, m.blocksize.0 as u64, m.blocksize.1 as u64];
    lemma_read_data::<T>(n, m.data, dims);
    lemma_usize_round(m.blocksize.0);
    lemma_usize_round(m.blocksize.1);
    assert(dims.map_values(|x: u64| wrap_usize(x))[1] == m.blocksize.0);
    assert(dims.map_values(|x: u64| wrap_usize(x))[2] == m.blocksize.1);
}

/// No two variant tags share their stored bytes.
proof fn lemma_tags_distinct()
    ensures
        forall|a: FormatTag, b: FormatTag|
            a != b ==> #[trigger] tag_bytes(a) != #[trigger] tag_bytes(b),
{
    assert forall|a: FormatTag, b: FormatTag| a != b implies #[trigger] tag_bytes(a)
        != #[trigger] tag_bytes(b) by {
        if tag_bytes(a) == tag_bytes(b) {
            assert(tag_bytes(a)[1] == tag_bytes(b)[1]);
            assert(tag_bytes(a)[2] == tag_bytes(b)[2]);
            assert(tag_bytes(a)[0] == tag_bytes(b)[0]);
        }
    }
}

/// The whole-codec round trip: a record in any variant, written under
/// its tag, dispatches back through the stored discriminator and decodes
/// to itself.
pub proof fn lemma_sparse_round_trip<T>(s: SparseV<T>)
    requires
        s_encode_ok(s),
    ensures
        s_decode_sparse(s_encode_sparse(s)) == Ok::<SparseV<T>, ErrV>(s),
{
    lemma_tags_distinct();
    match s {
        SparseV::Coo(m) => {
            let n = s_encode_coo::<T>(m);
            lemma_fetch_in(n, ArrayName::Format, 0);
            lemma_read_format::<T>(n, FormatTag::Coo);
            lemma_coo_round_trip(m);
        },
        SparseV::Csr(m) => {
            let n = s_encode_csr::<T>(m);
            lemma_fetch_in(n, ArrayName::Format, 0);
            lemma_read_format::<T>(n, FormatTag::Csr);
            lemma_csr_round_trip(m);
        },
        SparseV::Csc(m) => {
            let n = s_encode_csc::<T>(m);
            lemma_fetch_in(n, ArrayName::Format, 0);
            lemma_read_format::<T>(n, FormatTag::Csc);
            lemma_csc_round_trip(m);
        },
        SparseV::Dia(m) => {
            let n = s_encode_dia::<T>(m);
            lemma_fetch_in(n, ArrayName::Format, 0);
            lemma_read_format::<T>(n, FormatTag::Dia);
            lemma_dia_round_trip(m);
        },
        SparseV::Bsr(m) => {
            let n = s_encode_bsr::<T>(m);
            lemma_fetch_in(n, ArrayName::Format, 0);
            lemma_read_format::<T>(n, FormatTag::Bsr);
            lemma_bsr_round_trip(m);
        },
    }
}

// ---------------------------------------------------------------------
// Width independence.

/// Two element streams are width-equivalent: equal outright, or the
/// same integer values authored at the two accepted storage widths.
pub open spec fn elems_width_equiv<T>(a: ElemsV<T>, b: ElemsV<T>) -> bool {
    ||| a == b
    ||| (a matches ElemsV::I32(v) && b matches ElemsV::I64(w) && w == v.map_values(
        |x: i32| x as i64,
    ))
    ||| (b matches ElemsV::I32(v) && a matches ElemsV::I64(w) && w == v.map_values(
        |x: i32| x as i64,
    ))
}

/// Two arrays are width-equivalent: same declared shape and order,
/// width-equivalent elements.
pub open spec fn array_width_equiv<T>(a: ArrayV<T>, b: ArrayV<T>) -> bool {
    a.shape == b.shape && a.order == b.order && elems_width_equiv(a.elems, b.elems)
}

/// Two containers are width-equivalent: same arrays under the same
/// names in the same order, each pair width-equivalent.
pub open spec fn npz_width_equiv<T>(n1: NpzV<T>, n2: NpzV<T>) -> bool {
    &&& n1.len() == n2.len()
    &&& forall|i: int|
        0 <= i < n1.len() ==> (#[trigger] n1[i]).0 == (#[trigger] n2[i]).0 && array_width_equiv(
            n1[i].1,
            n2[i].1,
        )
}

/// Two decode outcomes agree: they succeed together, with the same
/// value, or fail together.
pub open spec fn results_agree<A>(r1: Result<A, ErrV>, r2: Result<A, ErrV>) -> bool {
    match (r1, r2) {
        (Ok(x), Ok(y)) => x == y,
        (Err(_), Err(_)) => true,
        _ => false,
    }
}

proof fn lemma_fetch_width_equiv<T>(n1: NpzV<T>, n2: NpzV<T>, name: ArrayName)
    requires
        npz_width_equiv(n1, n2),
    ensures
        match (s_fetch(n1, name), s_fetch(n2, name)) {
            (Option::None, Option::None) => true,
            (Option::Some(a), Option::Some(b)) => array_width_equiv(a, b),
            _ => false,
        },
    decreases n1.len(),
{
    if n1.len() == 0 {
    } else {
        assert(n1[0].0 == n2[0].0 && array_width_equiv(n1[0].1, n2[0].1));
        if n1[0].0 != name {
            let d1 = n1.drop_first();
            let d2 = n2.drop_first();
            assert(npz_width_equiv(d1, d2)) by {
                assert forall|i: int|
                    0 <= i < d1.len() implies (#[trigger] d1[i]).0 == (#[trigger] d2[i]).0
                    && array_width_equiv(d1[i].1, d2[i].1) by {
                    assert(d1[i] == n1[i + 1]);
                    assert(d2[i] == n2[i + 1]);
                    assert(n1[i + 1].0 == n2[i + 1].0 && array_width_equiv(
                        n1[i + 1].1,
                        n2[i + 1].1,
                    ));
                }
            }
            lemma_fetch_width_equiv(d1, d2, name);
        }
    }
}

/// Widening is oblivious to the authored width: an integer array read
/// from width-equivalent containers yields the very same outcome.
proof fn lemma_extract_indices_width<T>(n1: NpzV<T>, n2: NpzV<T>, name: ArrayName)
    requires
        npz_width_equiv(n1, n2),
    ensures
        s_extract_indices(n1, name) == s_extract_indices(n2, name),
{
    lemma_fetch_width_equiv(n1, n2, name);
    match (s_fetch(n1, name), s_fetch(n2, name)) {
        (Option::Some(a), Option::Some(b)) => {
            if a.shape.len() == 1 {
                match (a.elems, b.elems) {
                    (ElemsV::I32(v), ElemsV::I64(w)) => {
                        assert(v.map_values(|x: i32| ext32(x)) =~= w.map_values(
                            |x: i64| ext64(x),
                        )) by {
                            assert forall|i: int| 0 <= i < v.len() implies ext32(v[i]) == ext64(
                                w[i],
                            ) by {
                                lemma_ext32_is_ext64(v[i]);
                            }
                        }
                    },
                    (ElemsV::I64(w), ElemsV::I32(v)) => {
                        assert(v.map_values(|x: i32| ext32(x)) =~= w.map_values(
                            |x: i64| ext64(x),
                        )) by {
                            assert forall|i: int| 0 <= i < v.len() implies ext32(v[i]) == ext64(
                                w[i],
                            ) by {
                                lemma_ext32_is_ext64(v[i]);
                            }
                        }
                    },
                    _ => {},
                }
            }
        },
        _ => {},
    }
}

/// As [`lemma_extract_indices_width`], for the signed widening.
proof fn lemma_extract_signed_width<T>(n1: NpzV<T>, n2: NpzV<T>, name: ArrayName)
    requires
        npz_width_equiv(n1, n2),
    ensures
        s_extract_signed_indices(n1, name) == s_extract_signed_indices(n2, name),
{
    lemma_fetch_width_equiv(n1, n2, name);
}

/// Steps that read caller-typed or byte-string elements agree between
/// width-equivalent containers.
proof fn lemma_extract_rest_width<T>(n1: NpzV<T>, n2: NpzV<T>, name: ArrayName, ndim: int)
    requires
        npz_width_equiv(n1, n2),
    ensures
        results_agree(s_extract_scalar(n1, name), s_extract_scalar(n2, name)),
        results_agree(s_extract_1d(n1, name), s_extract_1d(n2, name)),
        results_agree(s_extract_nd(n1, name, ndim), s_extract_nd(n2, name, ndim)),
{
    lemma_fetch_width_equiv(n1, n2, name);
}

/// Width independence of the whole coordinate decoder: containers that
/// differ only in the authored width of their integer arrays decode
/// alike — to the same record on success, and to failure together.
pub proof fn lemma_coo_width_independence<T>(n1: NpzV<T>, n2: NpzV<T>)
    requires
        npz_width_equiv(n1, n2),
    ensures
        results_agree(s_decode_coo(n1), s_decode_coo(n2)),
{
    lemma_extract_rest_width(n1, n2, ArrayName::Format, 0);
    lemma_extract_indices_width(n1, n2, ArrayName::Shape);
    lemma_extract_indices_width(n1, n2, ArrayName::Row);
    lemma_extract_indices_width(n1, n2, ArrayName::Col);
    lemma_extract_rest_width(n1, n2, ArrayName::Data, 1);
}

/// As [`lemma_coo_width_independence`], for the compressed-row decoder.
pub proof fn lemma_csr_width_independence<T>(n1: NpzV<T>, n2: NpzV<T>)
    requires
        npz_width_equiv(n1, n2),
    ensures
        results_agree(s_decode_csr(n1), s_decode_csr(n2)),
{
    lemma_extract_rest_width(n1, n2, ArrayName::Format, 0);
    lemma_extract_indices_width(n1, n2, ArrayName::Shape);
    lemma_extract_indices_width(n1, n2, ArrayName::Indices);
    lemma_extract_indices_width(n1, n2, ArrayName::Indptr);
    lemma_extract_rest_width(n1, n2, ArrayName::Data, 1);
}

/// As [`lemma_coo_width_independence`], for the compressed-column
/// decoder.
pub proof fn lemma_csc_width_independence<T>(n1: NpzV<T>, n2: NpzV<T>)
    requires
        npz_width_equiv(n1, n2),
    ensures
        results_agree(s_decode_csc(n1), s_decode_csc(n2)),
{
    lemma_extract_rest_width(n1, n2, ArrayName::Format, 0);
    lemma_extract_indices_width(n1, n2, ArrayName::Shape);
    lemma_extract_indices_width(n1, n2, ArrayName::Indices);
    lemma_extract_indices_width(n1, n2, ArrayName::Indptr);
    lemma_extract_rest_width(n1, n2, ArrayName::Data, 1);
}

/// As [`lemma_coo_width_independence`], for the diagonal decoder.
pub proof fn lemma_dia_width_independence<T>(n1: NpzV<T>, n2: NpzV<T>)
    requires
        npz_width_equiv(n1, n2),
    ensures
        results_agree(s_decode_dia(n1), s_decode_dia(n2)),
{
    lemma_extract_rest_width(n1, n2, ArrayName::Format, 0);
    lemma_extract_indices_width(n1, n2, ArrayName::Shape);
    lemma_extract_signed_width(n1, n2, ArrayName::Offsets);
    lemma_extract_rest_width(n1, n2, ArrayName::Data, 2);
}

/// As [`lemma_coo_width_independence`], for the block-row decoder.
pub proof fn lemma_bsr_width_independence<T>(n1: NpzV<T>, n2: NpzV<T>)
    requires
        npz_width_equiv(n1, n2),
    ensures
        results_agree(s_decode_bsr(n1), s_decode_bsr(n2)),
{
    lemma_extract_rest_width(n1, n2, ArrayName::Format, 0);
    lemma_extract_indices_width(n1, n2, ArrayName::Shape);
    lemma_extract_indices_width(n1, n2, ArrayName::Indices);
    lemma_extract_indices_width(n1, n2, ArrayName::Indptr);
    lemma_extract_rest_width(n1, n2, ArrayName::Data, 3);
}

/// Width independence of the dispatching decoder itself.
pub proof fn lemma_sparse_width_independence<T>(n1: NpzV<T>, n2: NpzV<T>)
    requires
        npz_width_equiv(n1, n2),
    ensures
        results_agree(s_decode_sparse(n1), s_decode_sparse(n2)),
{
    lemma_extract_rest_width(n1, n2, ArrayName::Format, 0);
    lemma_coo_width_independence(n1, n2);
    lemma_csr_width_independence(n1, n2);
    lemma_csc_width_independence(n1, n2);
    lemma_dia_width_independence(n1, n2);
    lemma_bsr_width_independence(n1, n2);
}

} // verus!

