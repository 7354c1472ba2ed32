//! The decode engine: for a chosen variant, read the fixed set of named
//! arrays from the container, validate rank and dtype, widen integer
//! index arrays to the canonical width, and assemble the record.

use vstd::prelude::*;

use crate::error::ErrV;
use crate::error::NpzError;
use crate::npz::Array;
use crate::npz::ArrayName;
use crate::npz::ArrayV;
use crate::npz::Elems;
use crate::npz::ElemsV;
use crate::npz::FormatTag;
use crate::npz::Npz;
use crate::npz::NpzV;
use crate::npz::Order;
use crate::npz::array_wf;
use crate::npz::copy_vec;
use crate::npz::elems_len;
use crate::npz::kind_of;
use crate::npz::npz_wf;
use crate::npz::s_fetch;
use crate::npz::shape_count;
use crate::npz::tag_bytes;
use crate::sparse::Bsr;
use crate::sparse::BsrV;
use crate::sparse::Coo;
use crate::sparse::CooV;
use crate::sparse::Csc;
use crate::sparse::CscV;
use crate::sparse::Csr;
use crate::sparse::CsrV;
use crate::sparse::Dia;
use crate::sparse::DiaV;
use crate::sparse::Sparse;
use crate::sparse::SparseV;
use crate::width::ext32;
use crate::width::ext64;
use crate::width::widen_u_i32;
use crate::width::widen_u_i64;
use crate::width::widen_s_i32;
use crate::width::wrap_usize;
use crate::width::u64_to_usize;

verus! {

// ---------------------------------------------------------------------
// What each extraction step yields, as a function of the container.

/// Fetch the array stored under `name` and check its rank.
pub open spec fn s_extract_ndim<T>(n: NpzV<T>, name: ArrayName, expected: int) -> Result<
    ArrayV<T>,
    ErrV,
> {
    match s_fetch(n, name) {
        None => Err(ErrV::MissingArray { name }),
        Some(a) => if a.shape.len() != expected {
            Err(ErrV::InvalidRank { name, expected, actual: a.shape.len() as int })
        } else {
            Ok(a)
        },
    }
}

/// Read the zero-dimensional byte-string array stored under `name`.
pub open spec fn s_extract_scalar<T>(n: NpzV<T>, name: ArrayName) -> Result<Seq<u8>, ErrV> {
    match s_extract_ndim(n, name, 0) {
        Err(e) => Err(e),
        Ok(a) => match a.elems {
            ElemsV::Bytes(v) => Ok(v[0]),
            _ => Err(ErrV::BadElements { name, dtype: kind_of(a.elems) }),
        },
    }
}

/// Check that the stored discriminator equals `tag`.
pub open spec fn s_expect_format<T>(n: NpzV<T>, tag: FormatTag) -> Result<(), ErrV> {
    match s_extract_scalar(n, ArrayName::Format) {
        Err(e) => Err(e),
        Ok(f) => if f == tag_bytes(tag) {
            Ok(())
        } else {
            Err(ErrV::FormatMismatch { expected: tag, actual: f })
        },
    }
}

/// Read a rank-1 integer array stored at either width, widened to the
/// canonical unsigned width.
pub open spec fn s_extract_indices<T>(n: NpzV<T>, name: ArrayName) -> Result<Seq<u64>, ErrV> {
    match s_extract_ndim(n, name, 1) {
        Err(e) => Err(e),
        Ok(a) => match a.elems {
            ElemsV::I32(v) => Ok(v.map_values(|x: i32| ext32(x))),
            ElemsV::I64(v) => Ok(v.map_values(|x: i64| ext64(x))),
            _ => Err(ErrV::InvalidDType { name, dtype: kind_of(a.elems) }),
        },
    }
}

/// Read a rank-1 integer array stored at either width, widened to the
/// canonical signed width.
pub open spec fn s_extract_signed_indices<T>(n: NpzV<T>, name: ArrayName) -> Result<
    Seq<i64>,
    ErrV,
> {
    match s_extract_ndim(n, name, 1) {
        Err(e) => Err(e),
        Ok(a) => match a.elems {
            ElemsV::I32(v) => Ok(v.map_values(|x: i32| x as i64)),
            ElemsV::I64(v) => Ok(v),
            _ => Err(ErrV::InvalidDType { name, dtype: kind_of(a.elems) }),
        },
    }
}

/// Read a rank-1 integer array, reduced to the platform's index width.
pub open spec fn s_extract_usize_indices<T>(n: NpzV<T>, name: ArrayName) -> Result<
    Seq<usize>,
    ErrV,
> {
    match s_extract_indices(n, name) {
        Err(e) => Err(e),
        Ok(v) => Ok(v.map_values(|x: u64| wrap_usize(x))),
    }
}

/// Read the two-element dimension array stored under `name`.
pub open spec fn s_extract_shape<T>(n: NpzV<T>, name: ArrayName) -> Result<(u64, u64), ErrV> {
    match s_extract_indices(n, name) {
        Err(e) => Err(e),
        Ok(v) => if v.len() != 2 {
            Err(ErrV::InvalidShape { name, len: v.len() as int })
        } else {
            Ok((v[0], v[1]))
        },
    }
}

/// Read a rank-1 array of caller-typed elements.
pub open spec fn s_extract_1d<T>(n: NpzV<T>, name: ArrayName) -> Result<Seq<T>, ErrV> {
    match s_extract_ndim(n, name, 1) {
        Err(e) => Err(e),
        Ok(a) => match a.elems {
            ElemsV::Plain(v) => Ok(v),
            _ => Err(ErrV::BadElements { name, dtype: kind_of(a.elems) }),
        },
    }
}

/// Read a multi-dimensional array of caller-typed elements, which must
/// be in row-major order, together with its declared shape reduced to
/// the platform's index width.
pub open spec fn s_extract_nd<T>(n: NpzV<T>, name: ArrayName, expected: int) -> Result<
    (Seq<T>, Seq<usize>),
    ErrV,
> {
    match s_extract_ndim(n, name, expected) {
        Err(e) => Err(e),
        Ok(a) => if a.order != Order::C {
            Err(ErrV::UnsupportedOrder { name })
        } else {
            match a.elems {
                ElemsV::Plain(v) => Ok((v, a.shape.map_values(|x: u64| wrap_usize(x)))),
                _ => Err(ErrV::BadElements { name, dtype: kind_of(a.elems) }),
            }
        },
    }
}

// ---------------------------------------------------------------------
// What each decoder yields, as a function of the container.

/// Decode a coordinate record.
pub open spec fn s_decode_coo<T>(n: NpzV<T>) -> Result<CooV<T>, ErrV> {
    match s_expect_format(n, FormatTag::Coo) {
        Err(e) => Err(e),
        Ok(_) => match s_extract_shape(n, ArrayName::Shape) {
            Err(e) => Err(e),
            Ok(shape) => match s_extract_indices(n, ArrayName::Row) {
                Err(e) => Err(e),
                Ok(row) => match s_extract_indices(n, ArrayName::Col) {
                    Err(e) => Err(e),
                    Ok(col) => match s_extract_1d(n, ArrayName::Data) {
                        Err(e) => Err(e),
                        Ok(data) => Ok(CooV { shape, data, row, col }),
                    },
                },
            },
        },
    }
}

/// Decode a compressed-row record.
pub open spec fn s_decode_csr<T>(n: NpzV<T>) -> Result<CsrV<T>, ErrV> {
    match s_expect_format(n, FormatTag::Csr) {
        Err(e) => Err(e),
        Ok(_) => match s_extract_shape(n, ArrayName::Shape) {
            Err(e) => Err(e),
            Ok(shape) => match s_extract_indices(n, ArrayName::Indices) {
                Err(e) => Err(e),
                Ok(indices) => match s_extract_usize_indices(n, ArrayName::Indptr) {
                    Err(e) => Err(e),
                    Ok(indptr) => match s_extract_1d(n, ArrayName::Data) {
                        Err(e) => Err(e),
                        Ok(data) => Ok(CsrV { shape, data, indices, indptr }),
                    },
                },
            },
        },
    }
}

/// Decode a compressed-column record.
pub open spec fn s_decode_csc<T>(n: NpzV<T>) -> Result<CscV<T>, ErrV> {
    match s_expect_format(n, FormatTag::Csc) {
        Err(e) => Err(e),
        Ok(_) => match s_extract_shape(n, ArrayName::Shape) {
            Err(e) => Err(e),
            Ok(shape) => match s_extract_indices(n, ArrayName::Indices) {
                Err(e) => Err(e),
                Ok(indices) => match s_extract_usize_indices(n, ArrayName::Indptr) {
                    Err(e) => Err(e),
                    Ok(indptr) => match s_extract_1d(n, ArrayName::Data) {
                        Err(e) => Err(e),
                        Ok(data) => Ok(CscV { shape, data, indices, indptr }),
                    },
                },
            },
        },
    }
}

/// Decode a diagonal record. The logical diagonal count and length come
/// from the data array's declared shape; the declared shape itself is
/// not retained beyond the rank check.
pub open spec fn s_decode_dia<T>(n: NpzV<T>) -> Result<DiaV<T>, ErrV> {
    match s_expect_format(n, FormatTag::Dia) {
        Err(e) => Err(e),
        Ok(_) => match s_extract_shape(n, ArrayName::Shape) {
            Err(e) => Err(e),
            Ok(shape) => match s_extract_signed_indices(n, ArrayName::Offsets) {
                Err(e) => Err(e),
                Ok(offsets) => match s_extract_nd(n, ArrayName::Data, 2) {
                    Err(e) => Err(e),
                    Ok((data, _)) => Ok(DiaV { shape, data, offsets }),
                },
            },
        },
    }
}

/// Decode a block-row record. The block size comes from the trailing two
/// dimensions of the data array's declared shape.
pub open spec fn s_decode_bsr<T>(n: NpzV<T>) -> Result<BsrV<T>, ErrV> {
    match s_expect_format(n, FormatTag::Bsr) {
        Err(e) => Err(e),
        Ok(_) => match s_extract_shape(n, ArrayName::Shape) {
            Err(e) => Err(e),
            Ok(shape) => match s_extract_indices(n, ArrayName::Indices) {
                Err(e) => Err(e),
                Ok(indices) => match s_extract_usize_indices(n, ArrayName::Indptr) {
                    Err(e) => Err(e),
                    Ok(indptr) => match s_extract_nd(n, ArrayName::Data, 3) {
                        Err(e) => Err(e),
                        Ok((data, dshape)) => Ok(
                            BsrV {
                                shape,
                                blocksize: (dshape[1], dshape[2]),
                                data,
                                indices,
                                indptr,
                            },
                        ),
                    },
                },
            },
        },
    }
}

/// Decode whichever variant the stored discriminator names.
pub open spec fn s_decode_sparse<T>(n: NpzV<T>) -> Result<SparseV<T>, ErrV> {
    match s_extract_scalar(n, ArrayName::Format) {
        Err(e) => Err(e),
        Ok(f) => if f == tag_bytes(FormatTag::Coo) {
            match s_decode_coo(n) {
                Ok(m) => Ok(SparseV::Coo(m)),
                Err(e) => Err(e),
            }
        } else if f == tag_bytes(FormatTag::Csc) {
            match s_decode_csc(n) {
                Ok(m) => Ok(SparseV::Csc(m)),
                Err(e) => Err(e),
            }
        } else if f == tag_bytes(FormatTag::Csr) {
            match s_decode_csr(n) {
                Ok(m) => Ok(SparseV::Csr(m)),
                Err(e) => Err(e),
            }
        } else if f == tag_bytes(FormatTag::Dia) {
            match s_decode_dia(n) {
                Ok(m) => Ok(SparseV::Dia(m)),
                Err(e) => Err(e),
            }
        } else if f == tag_bytes(FormatTag::Bsr) {
            match s_decode_bsr(n) {
                Ok(m) => Ok(SparseV::Bsr(m)),
                Err(e) => Err(e),
            }
        } else {
            Err(ErrV::InvalidFormat { raw: f })
        },
    }
}

// ---------------------------------------------------------------------
// Element-stream conversions.

/// Widen a stream of stored 4-byte indices to the canonical width.
fn widen_vec_i32(v: &Vec<i32>) -> (r: Vec<u64>)
    ensures
        r@ == v@.map_values(|x: i32| ext32(x)),
{
    let mut r: Vec<u64> = Vec::new();
    let mut i: usize = 0;
    while i < v.len()
        invariant
            0 <= i <= v.len(),
            r@.len() == i,
            forall|j: int| 0 <= j < i ==> r@[j] == ext32(v@[j]),
        decreases v.len() - i,
    {
        r.push(widen_u_i32(v[i]));
        i = i + 1;
    }
    proof {
        assert(r@ =~= v@.map_values(|x: i32| ext32(x)));
    }
    r
}

/// Widen a stream of stored 8-byte indices to the canonical width.
fn widen_vec_i64(v: &Vec<i64>) -> (r: Vec<u64>)
    ensures
        r@ == v@.map_values(|x: i64| ext64(x)),
{
    let mut r: Vec<u64> = Vec::new();
    let mut i: usize = 0;
    while i < v.len()
        invariant
            0 <= i <= v.len(),
            r@.len() == i,
            forall|j: int| 0 <= j < i ==> r@[j] == ext64(v@[j]),
        decreases v.len() - i,
    {
        r.push(widen_u_i64(v[i]));
        i = i + 1;
    }
    proof {
        assert(r@ =~= v@.map_values(|x: i64| ext64(x)));
    }
    r
}

/// Sign-extend a stream of stored 4-byte offsets to the canonical width.
fn sign_vec_i32(v: &Vec<i32>) -> (r: Vec<i64>)
    ensures
        r@ == v@.map_values(|x: i32| x as i64),
{
    let mut r: Vec<i64> = Vec::new();
    let mut i: usize = 0;
    while i < v.len()
        invariant
            0 <= i <= v.len(),
            r@.len() == i,
            forall|j: int| 0 <= j < i ==> r@[j] == v@[j] as i64,
        decreases v.len() - i,
    {
        r.push(widen_s_i32(v[i]));
        i = i + 1;
    }
    proof {
        assert(r@ =~= v@.map_values(|x: i32| x as i64));
    }
    r
}

/// Reduce widened indices to the platform's index width.
fn usize_vec(v: &Vec<u64>) -> (r: Vec<usize>)
    ensures
        r@ == v@.map_values(|x: u64| wrap_usize(x)),
{
    let mut r: Vec<usize> = Vec::new();
    let mut i: usize = 0;
    while i < v.len()
        invariant
            0 <= i <= v.len(),
            r@.len() == i,
            forall|j: int| 0 <= j < i ==> r@[j] == wrap_usize(v@[j]),
        decreases v.len() - i,
    {
        r.push(u64_to_usize(v[i]));
        i = i + 1;
    }
    proof {
        assert(r@ =~= v@.map_values(|x: u64| wrap_usize(x)));
    }
    r
}

// ---------------------------------------------------------------------
// Extraction.

/// A fetched array of a well-formed container is itself well formed.
proof fn lemma_fetch_wf<T>(n: NpzV<T>, name: ArrayName)
    requires
        npz_wf(n),
    ensures
        match s_fetch(n, name) {
            Some(a) => array_wf(a),
            None => true,
        },
    decreases n.len(),
{
    if n.len() > 0 && n[0].0 != name {
        assert(npz_wf(n.drop_first())) by {
            assert forall|i: int| 0 <= i < n.drop_first().len() implies array_wf(
                #[trigger] n.drop_first()[i].1,
            ) by {
                assert(n.drop_first()[i] == n[i + 1]);
            }
        }
        lemma_fetch_wf(n.drop_first(), name);
    }
}

/// Fetch the array stored under `name` and check that its rank is
/// `expected`.
fn extract_and_check_ndim<'a, T>(npz: &'a Npz<T>, name: ArrayName, expected: usize) -> (r: Result<
    &'a Array<T>,
    NpzError,
>)
    ensures
        match r {
            Ok(a) => s_extract_ndim(npz@, name, expected as int) == Ok::<ArrayV<T>, ErrV>(a@),
            Err(e) => s_extract_ndim(npz@, name, expected as int) == Err::<ArrayV<T>, ErrV>(e@),
        },
{
    match npz.fetch(name) {
        None => Err(NpzError::MissingArray { name }),
        Some(a) => {
            let ndim = a.shape.len();
            if ndim != expected {
                Err(NpzError::InvalidRank { name, expected, actual: ndim })
            } else {
                Ok(a)
            }
        },
    }
}

/// Read the zero-dimensional byte-string array stored under `name` (the
/// discriminator's shape): its single byte-string element.
fn extract_scalar<T>(npz: &Npz<T>, name: ArrayName) -> (r: Result<Vec<u8>, NpzError>)
    requires
        npz.wf(),
    ensures
        match r {
            Ok(b) => s_extract_scalar(npz@, name) == Ok::<Seq<u8>, ErrV>(b@),
            Err(e) => s_extract_scalar(npz@, name) == Err::<Seq<u8>, ErrV>(e@),
        },
{
    match extract_and_check_ndim(npz, name, 0) {
        Err(e) => Err(e),
        Ok(a) => match &a.elems {
            Elems::Bytes(v) => {
                proof {
                    lemma_fetch_wf(npz@, name);
                    assert(elems_len(a@.elems) == shape_count(a@.shape));
                    assert(shape_count(a@.shape) == 1);
                    assert(v.deep_view().len() == v@.len());
                }
                let b = copy_vec(&v[0]);
                proof {
                    assert(v.deep_view()[0] =~= v@[0]@);
                }
                Ok(b)
            },
            _ => Err(NpzError::BadElements { name, dtype: a.elems.kind() }),
        },
    }
}

/// Check that the stored discriminator equals `expected`; a variant
/// decoder calls this even when the outer dispatch has already chosen
/// it, so that a direct call still enforces the tag.
fn expect_format<T>(npz: &Npz<T>, expected: FormatTag) -> (r: Result<(), NpzError>)
    requires
        npz.wf(),
    ensures
        match r {
            Ok(_) => s_expect_format(npz@, expected) == Ok::<(), ErrV>(()),
            Err(e) => s_expect_format(npz@, expected) == Err::<(), ErrV>(e@),
        },
{
    match extract_scalar(npz, ArrayName::Format) {
        Err(e) => Err(e),
        Ok(format) => {
            let tag = expected.bytes();
            if bytes_eq(&format, &tag) {
                Ok(())
            } else {
                Err(NpzError::FormatMismatch { expected, actual: format })
            }
        },
    }
}

/// Compare two byte strings.
fn bytes_eq(a: &Vec<u8>, b: &Vec<u8>) -> (r: bool)
    ensures
        r == (a@ == b@),
{
    if a.len() != b.len() {
        return false;
    }
    let mut i: usize = 0;
    while i < a.len()
        invariant
            0 <= i <= a.len(),
            a.len() == b.len(),
            forall|j: int| 0 <= j < i ==> a@[j] == b@[j],
        decreases a.len() - i,
    {
        if a[i] != b[i] {
            return false;
        }
        i = i + 1;
    }
    proof {
        assert(a@ =~= b@);
    }
    true
}

/// Read a rank-1 integer array stored as 4-byte or 8-byte signed
/// integers, widened to the canonical unsigned width.
fn extract_indices<T>(npz: &Npz<T>, name: ArrayName) -> (r: Result<Vec<u64>, NpzError>)
    ensures
        match r {
            Ok(v) => s_extract_indices(npz@, name) == Ok::<Seq<u64>, ErrV>(v@),
            Err(e) => s_extract_indices(npz@, name) == Err::<Seq<u64>, ErrV>(e@),
        },
{
    match extract_and_check_ndim(npz, name, 1) {
        Err(e) => Err(e),
        Ok(a) => match &a.elems {
            Elems::I32(v) => Ok(widen_vec_i32(v)),
            Elems::I64(v) => Ok(widen_vec_i64(v)),
            _ => Err(NpzError::InvalidDType { name, dtype: a.elems.kind() }),
        },
    }
}

/// Read a rank-1 integer array stored at either width, widened to the
/// canonical signed width.
fn extract_signed_indices<T>(npz: &Npz<T>, name: ArrayName) -> (r: Result<Vec<i64>, NpzError>)
    ensures
        match r {
            Ok(v) => s_extract_signed_indices(npz@, name) == Ok::<Seq<i64>, ErrV>(v@),
            Err(e) => s_extract_signed_indices(npz@, name) == Err::<Seq<i64>, ErrV>(e@),
        },
{
    match extract_and_check_ndim(npz, name, 1) {
        Err(e) => Err(e),
        Ok(a) => match &a.elems {
            Elems::I32(v) => Ok(sign_vec_i32(v)),
            Elems::I64(v) => Ok(copy_vec(v)),
            _ => Err(NpzError::InvalidDType { name, dtype: a.elems.kind() }),
        },
    }
}

/// Read a rank-1 integer array, reduced to the platform's index width.
fn extract_usize_indices<T>(npz: &Npz<T>, name: ArrayName) -> (r: Result<Vec<usize>, NpzError>)
    ensures
        match r {
            Ok(v) => s_extract_usize_indices(npz@, name) == Ok::<Seq<usize>, ErrV>(v@),
            Err(e) => s_extract_usize_indices(npz@, name) == Err::<Seq<usize>, ErrV>(e@),
        },
{
    match extract_indices(npz, name) {
        Err(e) => Err(e),
        Ok(v) => Ok(usize_vec(&v)),
    }
}

/// Read the dimension array: rank 1, exactly two values.
fn extract_shape<T>(npz: &Npz<T>, name: ArrayName) -> (r: Result<[u64; 2], NpzError>)
    ensures
        match r {
            Ok(s) => s_extract_shape(npz@, name) == Ok::<(u64, u64), ErrV>((s@[0], s@[1])),
            Err(e) => s_extract_shape(npz@, name) == Err::<(u64, u64), ErrV>(e@),
        },
{
    match extract_indices(npz, name) {
        Err(e) => Err(e),
        Ok(v) => {
            if v.len() != 2 {
                Err(NpzError::InvalidShape { name, len: v.len() })
            } else {
                Ok([v[0], v[1]])
            }
        },
    }
}

/// Read a rank-1 array of caller-typed elements.
fn extract_1d<T: Copy>(npz: &Npz<T>, name: ArrayName) -> (r: Result<Vec<T>, NpzError>)
    ensures
        match r {
            Ok(v) => s_extract_1d(npz@, name) == Ok::<Seq<T>, ErrV>(v@),
            Err(e) => s_extract_1d(npz@, name) == Err::<Seq<T>, ErrV>(e@),
        },
{
    match extract_and_check_ndim(npz, name, 1) {
        Err(e) => Err(e),
        Ok(a) => match &a.elems {
            Elems::Plain(v) => Ok(copy_vec(v)),
            _ => Err(NpzError::BadElements { name, dtype: a.elems.kind() }),
        },
    }
}

/// Read a multi-dimensional array of caller-typed elements, which must
/// be in row-major order, with its declared shape.
fn extract_nd<T: Copy>(npz: &Npz<T>, name: ArrayName, expected_ndim: usize) -> (r: Result<
    (Vec<T>, Vec<usize>),
    NpzError,
>)
    ensures
        match r {
            Ok(p) => s_extract_nd(npz@, name, expected_ndim as int) == Ok::<
                (Seq<T>, Seq<usize>),
                ErrV,
            >((p.0@, p.1@)),
            Err(e) => s_extract_nd(npz@, name, expected_ndim as int) == Err::<
                (Seq<T>, Seq<usize>),
                ErrV,
            >(e@),
        },
{
    match extract_and_check_ndim(npz, name, expected_ndim) {
        Err(e) => Err(e),
        Ok(a) => {
            if a.order != Order::C {
                return Err(NpzError::UnsupportedOrder { name });
            }
            match &a.elems {
                Elems::Plain(v) => Ok((copy_vec(v), usize_vec(&a.shape))),
                _ => Err(NpzError::BadElements { name, dtype: a.elems.kind() }),
            }
        },
    }
}

// ---------------------------------------------------------------------
// The per-variant decoders and the dispatcher.

impl<T: Copy> Coo<T> {
    /// Read a coordinate record from the container.
    pub fn from_npz(npz: &Npz<T>) -> (r: Result<Self, NpzError>)
        requires
            npz.wf(),
        ensures
            match r {
                Ok(m) => s_decode_coo(npz@) == Ok::<CooV<T>, ErrV>(m@),
                Err(e) => s_decode_coo(npz@) == Err::<CooV<T>, ErrV>(e@),
            },
    {
        match expect_format(npz, FormatTag::Coo) {
            Err(e) => {
                return Err(e);
            },
            Ok(_) => {},
        }
        let shape = match extract_shape(npz, ArrayName::Shape) {
            Ok(s) => s,
            Err(e) => {
                return Err(e);
            },
        };
        let row = match extract_indices(npz, ArrayName::Row) {
            Ok(v) => v,
            Err(e) => {
                return Err(e);
            },
        };
        let col = match extract_indices(npz, ArrayName::Col) {
            Ok(v) => v,
            Err(e) => {
                return Err(e);
            },
        };
        let data = match extract_1d(npz, ArrayName::Data) {
            Ok(v) => v,
            Err(e) => {
                return Err(e);
            },
        };
        Ok(Coo { data, shape, row, col })
    }
}

impl<T: Copy> Csr<T> {
    /// Read a compressed-row record from the container.
    pub fn from_npz(npz: &Npz<T>) -> (r: Result<Self, NpzError>)
        requires
            npz.wf(),
        ensures
            match r {
                Ok(m) => s_decode_csr(npz@) == Ok::<CsrV<T>, ErrV>(m@),
                Err(e) => s_decode_csr(npz@) == Err::<CsrV<T>, ErrV>(e@),
            },
    {
        match expect_format(npz, FormatTag::Csr) {
            Err(e) => {
                return Err(e);
            },
            Ok(_) => {},
        }
        let shape = match extract_shape(npz, ArrayName::Shape) {
            Ok(s) => s,
            Err(e) => {
                return Err(e);
            },
        };
        let indices = match extract_indices(npz, ArrayName::Indices) {
            Ok(v) => v,
            Err(e) => {
                return Err(e);
            },
        };
        let indptr = match extract_usize_indices(npz, ArrayName::Indptr) {
            Ok(v) => v,
            Err(e) => {
                return Err(e);
            },
        };
        let data = match extract_1d(npz, ArrayName::Data) {
            Ok(v) => v,
            Err(e) => {
                return Err(e);
            },
        };
        Ok(Csr { data, shape, indices, indptr })
    }
}

impl<T: Copy> Csc<T> {
    /// Read a compressed-column record from the container.
    pub fn from_npz(npz: &Npz<T>) -> (r: Result<Self, NpzError>)
        requires
            npz.wf(),
        ensures
            match r {
                Ok(m) => s_decode_csc(npz@) == Ok::<CscV<T>, ErrV>(m@),
                Err(e) => s_decode_csc(npz@) == Err::<CscV<T>, ErrV>(e@),
            },
    {
        match expect_format(npz, FormatTag::Csc) {
            Err(e) => {
                return Err(e);
            },
            Ok(_) => {},
        }
        let shape = match extract_shape(npz, ArrayName::Shape) {
            Ok(s) => s,
            Err(e) => {
                return Err(e);
            },
        };
        let indices = match extract_indices(npz, ArrayName::Indices) {
            Ok(v) => v,
            Err(e) => {
                return Err(e);
            },
        };
        let indptr = match extract_usize_indices(npz, ArrayName::Indptr) {
            Ok(v) => v,
            Err(e) => {
                return Err(e);
            },
        };
        let data = match extract_1d(npz, ArrayName::Data) {
            Ok(v) => v,
            Err(e) => {
                return Err(e);
            },
        };
        Ok(Csc { data, shape, indices, indptr })
    }
}

impl<T: Copy> Dia<T> {
    /// Read a diagonal record from the container.
    pub fn from_npz(npz: &Npz<T>) -> (r: Result<Self, NpzError>)
        requires
            npz.wf(),
        ensures
            match r {
                Ok(m) => s_decode_dia(npz@) == Ok::<DiaV<T>, ErrV>(m@),
                Err(e) => s_decode_dia(npz@) == Err::<DiaV<T>, ErrV>(e@),
            },
    {
        match expect_format(npz, FormatTag::Dia) {
            Err(e) => {
                return Err(e);
            },
            Ok(_) => {},
        }
        let shape = match extract_shape(npz, ArrayName::Shape) {
            Ok(s) => s,
            Err(e) => {
                return Err(e);
            },
        };
        let offsets = match extract_signed_indices(npz, ArrayName::Offsets) {
            Ok(v) => v,
            Err(e) => {
                return Err(e);
            },
        };
        let data = match extract_nd(npz, ArrayName::Data, 2) {
            Ok(p) => p.0,
            Err(e) => {
                return Err(e);
            },
        };
        Ok(Dia { data, shape, offsets })
    }
}

impl<T: Copy> Bsr<T> {
    /// Read a block-row record from the container.
    pub fn from_npz(npz: &Npz<T>) -> (r: Result<Self, NpzError>)
        requires
            npz.wf(),
        ensures
            match r {
                Ok(m) => s_decode_bsr(npz@) == Ok::<BsrV<T>, ErrV>(m@),
                Err(e) => s_decode_bsr(npz@) == Err::<BsrV<T>, ErrV>(e@),
            },
    {
        match expect_format(npz, FormatTag::Bsr) {
            Err(e) => {
                return Err(e);
            },
            Ok(_) => {},
        }
        let shape = match extract_shape(npz, ArrayName::Shape) {
            Ok(s) => s,
            Err(e) => {
                return Err(e);
            },
        };
        let indices = match extract_indices(npz, ArrayName::Indices) {
            Ok(v) => v,
            Err(e) => {
                return Err(e);
            },
        };
        let indptr = match extract_usize_indices(npz, ArrayName::Indptr) {
            Ok(v) => v,
            Err(e) => {
                return Err(e);
            },
        };
        let (data, data_shape) = match extract_nd(npz, ArrayName::Data, 3) {
            Ok(p) => p,
            Err(e) => {
                return Err(e);
            },
        };
        let blocksize = [data_shape[1], data_shape[2]];
        Ok(Bsr { data, shape, indices, indptr, blocksize })
    }
}

impl<T: Copy> Sparse<T> {
    /// Read a sparse matrix in whichever variant the container's
    /// discriminator names.
    pub fn from_npz(npz: &Npz<T>) -> (r: Result<Self, NpzError>)
        requires
            npz.wf(),
        ensures
            match r {
                Ok(m) => s_decode_sparse(npz@) == Ok::<SparseV<T>, ErrV>(m@),
                Err(e) => s_decode_sparse(npz@) == Err::<SparseV<T>, ErrV>(e@),
            },
    {
        let format = match extract_scalar(npz, ArrayName::Format) {
            Ok(b) => b,
            Err(e) => {
                return Err(e);
            },
        };
        if bytes_eq(&format, &FormatTag::Coo.bytes()) {
            match Coo::from_npz(npz) {
                Ok(m) => Ok(Sparse::Coo(m)),
                Err(e) => Err(e),
            }
        } else if bytes_eq(&format, &FormatTag::Csc.bytes()) {
            match Csc::from_npz(npz) {
                Ok(m) => Ok(Sparse::Csc(m)),
                Err(e) => Err(e),
            }
        } else if bytes_eq(&format, &FormatTag::Csr.bytes()) {
            match Csr::from_npz(npz) {
                Ok(m) => Ok(Sparse::Csr(m)),
                Err(e) => Err(e),
            }
        } else if bytes_eq(&format, &FormatTag::Dia.bytes()) {
            match Dia::from_npz(npz) {
                Ok(m) => Ok(Sparse::Dia(m)),
                Err(e) => Err(e),
            }
        } else if bytes_eq(&format, &FormatTag::Bsr.bytes()) {
            match Bsr::from_npz(npz) {
                Ok(m) => Ok(Sparse::Bsr(m)),
                Err(e) => Err(e),
            }
        } else {
            Err(NpzError::InvalidFormat { raw: format })
        }
    }
}

} // verus!
