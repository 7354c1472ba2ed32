//! The encode engine: for a populated record, derive each array's
//! required shape and a space-optimal integer width for index arrays,
//! then write the named arrays into a new container, discriminator
//! first, data last.

use vstd::prelude::*;

use crate::npz::Array;
use crate::npz::ArrayName;
use crate::npz::ArrayV;
use crate::npz::Elems;
use crate::npz::ElemsV;
use crate::npz::FormatTag;
use crate::npz::Npz;
use crate::npz::NpzV;
use crate::npz::Order;
use crate::npz::array_wf;
use crate::npz::copy_vec;
use crate::npz::npz_wf;
use crate::npz::shape_count;
use crate::npz::tag_bytes;
use crate::sparse::Bsr;
use crate::sparse::BsrV;
use crate::sparse::Coo;
use crate::sparse::CooV;
use crate::sparse::Csc;
use crate::sparse::CscV;
use crate::sparse::Csr;
use crate::sparse::CsrV;
use crate::sparse::Dia;
use crate::sparse::DiaV;
use crate::sparse::Sparse;
use crate::sparse::SparseV;
use crate::width::all_fit_i32;
use crate::width::fits_i32;
use crate::width::wrap64;
use crate::width::wrap_i_u64;

verus! {

// ---------------------------------------------------------------------
// The arrays an encoder writes, as functions of the record.

/// The discriminator array: zero-dimensional, one byte-string element.
pub open spec fn s_format_array<T>(tag: FormatTag) -> ArrayV<T> {
    ArrayV { shape: Seq::empty(), order: Order::C, elems: ElemsV::Bytes(seq![tag_bytes(tag)]) }
}

/// The dimension array: two values at the container's default signed
/// width.
pub open spec fn s_shape_array<T>(shape: (u64, u64)) -> ArrayV<T> {
    ArrayV {
        shape: seq![2u64],
        order: Order::C,
        elems: ElemsV::I64(seq![wrap64(shape.0), wrap64(shape.1)]),
    }
}

/// An index or offset array at the space-optimal width: 4-byte signed
/// integers when every value fits the signed 32-bit range, 8-byte
/// signed integers otherwise — an all-or-nothing choice per array.
pub open spec fn s_index_array<T>(vals: Seq<i64>) -> ArrayV<T> {
    ArrayV {
        shape: seq![vals.len() as u64],
        order: Order::C,
        elems: if all_fit_i32(vals) {
            ElemsV::I32(vals.map_values(|x: i64| x as i32))
        } else {
            ElemsV::I64(vals)
        },
    }
}

/// A data array of caller-typed elements under the given declared shape.
pub open spec fn s_data_array<T>(data: Seq<T>, shape: Seq<u64>) -> ArrayV<T> {
    ArrayV { shape, order: Order::C, elems: ElemsV::Plain(data) }
}

/// Unsigned indices reinterpreted as the signed values stored on disk.
pub open spec fn s_wrap_seq(v: Seq<u64>) -> Seq<i64> {
    v.map_values(|x: u64| wrap64(x))
}

/// Platform-width indices reinterpreted as the signed values stored on
/// disk.
pub open spec fn s_wrap_usize_seq(v: Seq<usize>) -> Seq<i64> {
    v.map_values(|x: usize| wrap64(x as u64))
}

/// The container a coordinate record encodes to.
pub open spec fn s_encode_coo<T>(m: CooV<T>) -> NpzV<T> {
    seq![
        (ArrayName::Format, s_format_array::<T>(FormatTag::Coo)),
        (ArrayName::Shape, s_shape_array::<T>(m.shape)),
        (ArrayName::Row, s_index_array::<T>(s_wrap_seq(m.row))),
        (ArrayName::Col, s_index_array::<T>(s_wrap_seq(m.col))),
        (ArrayName::Data, s_data_array::<T>(m.data, seq![m.data.len() as u64])),
    ]
}

/// The container a compressed-row record encodes to.
pub open spec fn s_encode_csr<T>(m: CsrV<T>) -> NpzV<T> {
    seq![
        (ArrayName::Format, s_format_array::<T>(FormatTag::Csr)),
        (ArrayName::Shape, s_shape_array::<T>(m.shape)),
        (ArrayName::Indices, s_index_array::<T>(s_wrap_seq(m.indices))),
        (ArrayName::Indptr, s_index_array::<T>(s_wrap_usize_seq(m.indptr))),
        (ArrayName::Data, s_data_array::<T>(m.data, seq![m.data.len() as u64])),
    ]
}

/// The container a compressed-column record encodes to.
pub open spec fn s_encode_csc<T>(m: CscV<T>) -> NpzV<T> {
    seq![
        (ArrayName::Format, s_format_array::<T>(FormatTag::Csc)),
        (ArrayName::Shape, s_shape_array::<T>(m.shape)),
        (ArrayName::Indices, s_index_array::<T>(s_wrap_seq(m.indices))),
        (ArrayName::Indptr, s_index_array::<T>(s_wrap_usize_seq(m.indptr))),
        (ArrayName::Data, s_data_array::<T>(m.data, seq![m.data.len() as u64])),
    ]
}

/// The container a diagonal record encodes to. The data array is
/// declared rank 2, its dimensions derived from the record's lengths.
pub open spec fn s_encode_dia<T>(m: DiaV<T>) -> NpzV<T> {
    seq![
        (ArrayName::Format, s_format_array::<T>(FormatTag::Dia)),
        (ArrayName::Shape, s_shape_array::<T>(m.shape)),
        (ArrayName::Offsets, s_index_array::<T>(m.offsets)),
        (
            ArrayName::Data,
            s_data_array::<T>(
                m.data,
                seq![
                    ((m.data.len() as int / m.offsets.len() as int) as u64),
                    m.offsets.len() as u64,
                ],
            ),
        ),
    ]
}

/// The container a block-row record encodes to. The data array is
/// declared rank 3: block count, then the two block dimensions.
pub open spec fn s_encode_bsr<T>(m: BsrV<T>) -> NpzV<T> {
    seq![
        (ArrayName::Format, s_format_array::<T>(FormatTag::Bsr)),
        (ArrayName::Shape, s_shape_array::<T>(m.shape)),
        (ArrayName::Indices, s_index_array::<T>(s_wrap_seq(m.indices))),
        (ArrayName::Indptr, s_index_array::<T>(s_wrap_usize_seq(m.indptr))),
        (
            ArrayName::Data,
            s_data_array::<T>(
                m.data,
                seq![m.indices.len() as u64, m.blocksize.0 as u64, m.blocksize.1 as u64],
            ),
        ),
    ]
}

/// The container a sparse matrix encodes to, whichever variant it is in.
pub open spec fn s_encode_sparse<T>(s: SparseV<T>) -> NpzV<T> {
    match s {
        SparseV::Coo(m) => s_encode_coo(m),
        SparseV::Csr(m) => s_encode_csr(m),
        SparseV::Csc(m) => s_encode_csc(m),
        SparseV::Dia(m) => s_encode_dia(m),
        SparseV::Bsr(m) => s_encode_bsr(m),
    }
}

/// The construction preconditions under which a record may be encoded:
/// the diagonal and block-row data lengths must divide out exactly, so
/// that no write is silently truncated. Violating these is a caller
/// contract failure, not a recoverable error.
pub open spec fn s_encode_ok<T>(s: SparseV<T>) -> bool {
    match s {
        SparseV::Coo(_) => true,
        SparseV::Csr(_) => true,
        SparseV::Csc(_) => true,
        SparseV::Dia(m) => m.offsets.len() != 0 && m.data.len() % m.offsets.len() == 0,
        SparseV::Bsr(m) => m.data.len() == m.indices.len() * m.blocksize.0 * m.blocksize.1,
    }
}

// ---------------------------------------------------------------------
// Shape bookkeeping for well-formedness of the written container.

proof fn lemma_shape_count1(a: u64)
    ensures
        shape_count(seq![a]) == a as nat,
{
    assert(seq![a].len() == 1);
    assert(seq![a][0] == a);
    assert(seq![a].drop_first() =~= Seq::<u64>::empty());
    assert(shape_count(Seq::<u64>::empty()) == 1);
    assert(shape_count(seq![a]) == (a * shape_count(seq![a].drop_first())) as nat);
}

proof fn lemma_shape_count2(a: u64, b: u64)
    ensures
        shape_count(seq![a, b]) == a as nat * b as nat,
{
    assert(seq![a, b].drop_first() =~= seq![b]);
    lemma_shape_count1(b);
}

proof fn lemma_shape_count3(a: u64, b: u64, c: u64)
    ensures
        shape_count(seq![a, b, c]) == a as nat * (b as nat * c as nat),
{
    assert(seq![a, b, c].drop_first() =~= seq![b, c]);
    lemma_shape_count2(b, c);
}

// ---------------------------------------------------------------------
// Writing single arrays into the container.

proof fn lemma_view_push<T>(pre: Npz<T>, post: Npz<T>, name: ArrayName, arr: Array<T>)
    requires
        post.arrays@ == pre.arrays@.push((name, arr)),
    ensures
        post@ == pre@.push((name, arr@)),
{
    assert(post@ =~= pre@.push((name, arr@)));
}

/// Write the discriminator array, before every other array.
fn write_format<T>(npz: &mut Npz<T>, format: FormatTag)
    ensures
        final(npz)@ == old(npz)@.push((ArrayName::Format, s_format_array::<T>(format))),
{
    let mut elems: Vec<Vec<u8>> = Vec::new();
    elems.push(format.bytes());
    proof {
        assert(elems.deep_view() =~~= seq![tag_bytes(format)]);
    }
    let arr = Array { shape: Vec::new(), order: Order::C, elems: Elems::Bytes(elems) };
    proof {
        assert(arr@.shape =~= Seq::<u64>::empty());
        assert(arr@ == s_format_array::<T>(format));
    }
    let ghost pre = *npz;
    npz.arrays.push((ArrayName::Format, arr));
    proof {
        assert(npz@ =~= pre@.push((ArrayName::Format, s_format_array::<T>(format))));
    }
}

/// Write the dimension array, two values at the default signed width.
fn write_shape<T>(npz: &mut Npz<T>, shape: &[u64; 2])
    ensures
        final(npz)@ == old(npz)@.push((ArrayName::Shape, s_shape_array::<T>((shape@[0], shape@[1])))),
{
    let mut vals: Vec<i64> = Vec::new();
    vals.push(wrap_i_u64(shape[0]));
    vals.push(wrap_i_u64(shape[1]));
    let mut dims: Vec<u64> = Vec::new();
    dims.push(2u64);
    let arr = Array { shape: dims, order: Order::C, elems: Elems::I64(vals) };
    proof {
        assert(arr@.shape =~= seq![2u64]);
        assert(arr@.elems->I64_0 =~= seq![wrap64(shape@[0]), wrap64(shape@[1])]);
        assert(arr@ == s_shape_array::<T>((shape@[0], shape@[1])));
    }
    let ghost pre = *npz;
    npz.arrays.push((ArrayName::Shape, arr));
    proof {
        assert(npz@ =~= pre@.push((ArrayName::Shape, s_shape_array::<T>((shape@[0], shape@[1])))));
    }
}

/// Write an index or offset array at the space-optimal signed width.
fn write_indices<T>(npz: &mut Npz<T>, name: ArrayName, data: Vec<i64>)
    ensures
        final(npz)@ == old(npz)@.push((name, s_index_array::<T>(data@))),
{
    let ghost dv = data@;
    let n = data.len();
    let elems = if fits_i32(&data) {
        let mut small: Vec<i32> = Vec::new();
        let mut i: usize = 0;
        while i < data.len()
            invariant
                0 <= i <= data.len(),
                all_fit_i32(data@),
                small@.len() == i,
                forall|j: int| 0 <= j < i ==> small@[j] == data@[j] as i32,
            decreases data.len() - i,
        {
            small.push(data[i] as i32);
            i = i + 1;
        }
        proof {
            assert(small@ =~= data@.map_values(|x: i64| x as i32));
        }
        Elems::I32(small)
    } else {
        Elems::I64(data)
    };
    let mut dims: Vec<u64> = Vec::new();
    dims.push(n as u64);
    let arr = Array { shape: dims, order: Order::C, elems };
    proof {
        assert(arr@.shape =~= seq![n as u64]);
        assert(arr@ == s_index_array::<T>(dv));
    }
    let ghost pre = *npz;
    npz.arrays.push((name, arr));
    proof {
        assert(npz@ =~= pre@.push((name, s_index_array::<T>(dv))));
    }
}

/// Write the data array of caller-typed elements under the given
/// declared shape.
fn write_data<T: Copy>(npz: &mut Npz<T>, data: &Vec<T>, shape: Vec<u64>)
    ensures
        final(npz)@ == old(npz)@.push((ArrayName::Data, s_data_array::<T>(data@, shape@))),
{
    let arr = Array { shape, order: Order::C, elems: Elems::Plain(copy_vec(data)) };
    let ghost pre = *npz;
    npz.arrays.push((ArrayName::Data, arr));
    proof {
        assert(npz@ =~= pre@.push((ArrayName::Data, arr@)));
    }
}

// ---------------------------------------------------------------------
// The per-variant encoders and the dispatcher.

/// A vector never holds more elements than a dimension can state.
proof fn lemma_vec_len_bound<A>(v: &Vec<A>)
    ensures
        v@.len() <= usize::MAX,
        usize::MAX <= u64::MAX,
{
    assert(v.len() == v@.len());
}

/// Every array an index-array writer emits is well formed, its length
/// being small enough to state as a dimension.
proof fn lemma_index_array_wf<T>(vals: Seq<i64>)
    requires
        vals.len() <= u64::MAX,
    ensures
        array_wf(s_index_array::<T>(vals)),
{
    lemma_shape_count1(vals.len() as u64);
}

/// The discriminator and dimension arrays are well formed.
proof fn lemma_head_arrays_wf<T>(tag: FormatTag, shape: (u64, u64))
    ensures
        array_wf(s_format_array::<T>(tag)),
        array_wf(s_shape_array::<T>(shape)),
{
    assert(shape_count(Seq::<u64>::empty()) == 1);
    lemma_shape_count2(2u64, 1u64);
    assert(seq![2u64].drop_first() =~= Seq::<u64>::empty());
    assert(shape_count(seq![2u64]) == 2);
}

impl<T: Copy> Coo<T> {
    /// Write a coordinate record as a fresh container.
    pub fn write_npz(&self) -> (out: Npz<T>)
        ensures
            out@ == s_encode_coo(self@),
            npz_wf(out@),
    {
        let mut npz: Npz<T> = Npz { arrays: Vec::new() };
        write_format(&mut npz, FormatTag::Coo);
        write_shape(&mut npz, &self.shape);
        write_indices(&mut npz, ArrayName::Row, wrap_vec_u64(&self.row));
        write_indices(&mut npz, ArrayName::Col, wrap_vec_u64(&self.col));
        let mut dims: Vec<u64> = Vec::new();
        dims.push(self.data.len() as u64);
        write_data(&mut npz, &self.data, dims);
        proof {
            assert(npz@ =~~= s_encode_coo(self@));
            lemma_head_arrays_wf::<T>(FormatTag::Coo, self@.shape);
            lemma_vec_len_bound(&self.row);
            lemma_index_array_wf::<T>(s_wrap_seq(self@.row));
            lemma_vec_len_bound(&self.col);
            lemma_index_array_wf::<T>(s_wrap_seq(self@.col));
            lemma_shape_count1(self@.data.len() as u64);
        }
        npz
    }
}

impl<T: Copy> Csr<T> {
    /// Write a compressed-row record as a fresh container.
    pub fn write_npz(&self) -> (out: Npz<T>)
        ensures
            out@ == s_encode_csr(self@),
            npz_wf(out@),
    {
        let mut npz: Npz<T> = Npz { arrays: Vec::new() };
        write_format(&mut npz, FormatTag::Csr);
        write_shape(&mut npz, &self.shape);
        write_indices(&mut npz, ArrayName::Indices, wrap_vec_u64(&self.indices));
        write_indices(&mut npz, ArrayName::Indptr, wrap_vec_usize(&self.indptr));
        let mut dims: Vec<u64> = Vec::new();
        dims.push(self.data.len() as u64);
        write_data(&mut npz, &self.data, dims);
        proof {
            assert(npz@ =~~= s_encode_csr(self@));
            lemma_head_arrays_wf::<T>(FormatTag::Csr, self@.shape);
            lemma_vec_len_bound(&self.indices);
            lemma_index_array_wf::<T>(s_wrap_seq(self@.indices));
            lemma_vec_len_bound(&self.indptr);
            lemma_index_array_wf::<T>(s_wrap_usize_seq(self@.indptr));
            lemma_shape_count1(self@.data.len() as u64);
        }
        npz
    }
}

impl<T: Copy> Csc<T> {
    /// Write a compressed-column record as a fresh container.
    pub fn write_npz(&self) -> (out: Npz<T>)
        ensures
            out@ == s_encode_csc(self@),
            npz_wf(out@),
    {
        let mut npz: Npz<T> = Npz { arrays: Vec::new() };
        write_format(&mut npz, FormatTag::Csc);
        write_shape(&mut npz, &self.shape);
        write_indices(&mut npz, ArrayName::Indices, wrap_vec_u64(&self.indices));
        write_indices(&mut npz, ArrayName::Indptr, wrap_vec_usize(&self.indptr));
        let mut dims: Vec<u64> = Vec::new();
        dims.push(self.data.len() as u64);
        write_data(&mut npz, &self.data, dims);
        proof {
            assert(npz@ =~~= s_encode_csc(self@));
            lemma_head_arrays_wf::<T>(FormatTag::Csc, self@.shape);
            lemma_vec_len_bound(&self.indices);
            lemma_index_array_wf::<T>(s_wrap_seq(self@.indices));
            lemma_vec_len_bound(&self.indptr);
            lemma_index_array_wf::<T>(s_wrap_usize_seq(self@.indptr));
            lemma_shape_count1(self@.data.len() as u64);
        }
        npz
    }
}

impl<T: Copy> Dia<T> {
    /// Write a diagonal record as a fresh container.
    ///
    /// The data length must divide exactly into one row per stored
    /// diagonal; a record violating that is a construction contract
    /// failure, not a recoverable error, so it is excluded here rather
    /// than reported.
    pub fn write_npz(&self) -> (out: Npz<T>)
        requires
            self.offsets@.len() != 0,
            self.data@.len() % self.offsets@.len() == 0,
        ensures
            out@ == s_encode_dia(self@),
            npz_wf(out@),
    {
        let mut npz: Npz<T> = Npz { arrays: Vec::new() };
        write_format(&mut npz, FormatTag::Dia);
        write_shape(&mut npz, &self.shape);
        write_indices(&mut npz, ArrayName::Offsets, copy_vec(&self.offsets));
        let length = self.data.len() / self.offsets.len();
        let mut dims: Vec<u64> = Vec::new();
        dims.push(length as u64);
        dims.push(self.offsets.len() as u64);
        write_data(&mut npz, &self.data, dims);
        proof {
            assert(npz@ =~~= s_encode_dia(self@));
            lemma_head_arrays_wf::<T>(FormatTag::Dia, self@.shape);
            lemma_vec_len_bound(&self.offsets);
            lemma_index_array_wf::<T>(self@.offsets);
            lemma_shape_count2(length as u64, self.offsets@.len() as u64);
            vstd::arithmetic::div_mod::lemma_fundamental_div_mod(
                self.data@.len() as int,
                self.offsets@.len() as int,
            );
            assert(length * self.offsets@.len() == self.data@.len());
        }
        npz
    }
}

impl<T: Copy> Bsr<T> {
    /// Write a block-row record as a fresh container.
    ///
    /// The data length must equal the flattened size of one block per
    /// stored supercolumn index; a record violating that is a
    /// construction contract failure, not a recoverable error, so it is
    /// excluded here rather than reported.
    pub fn write_npz(&self) -> (out: Npz<T>)
        requires
            self.data@.len() == self.indices@.len() * self.blocksize@[0] * self.blocksize@[1],
        ensures
            out@ == s_encode_bsr(self@),
            npz_wf(out@),
    {
        let mut npz: Npz<T> = Npz { arrays: Vec::new() };
        write_format(&mut npz, FormatTag::Bsr);
        write_shape(&mut npz, &self.shape);
        write_indices(&mut npz, ArrayName::Indices, wrap_vec_u64(&self.indices));
        write_indices(&mut npz, ArrayName::Indptr, wrap_vec_usize(&self.indptr));
        let mut dims: Vec<u64> = Vec::new();
        dims.push(self.indices.len() as u64);
        dims.push(self.blocksize[0] as u64);
        dims.push(self.blocksize[1] as u64);
        write_data(&mut npz, &self.data, dims);
        proof {
            assert(npz@ =~~= s_encode_bsr(self@));
            lemma_head_arrays_wf::<T>(FormatTag::Bsr, self@.shape);
            lemma_vec_len_bound(&self.indices);
            lemma_index_array_wf::<T>(s_wrap_seq(self@.indices));
            lemma_vec_len_bound(&self.indptr);
            lemma_index_array_wf::<T>(s_wrap_usize_seq(self@.indptr));
            lemma_shape_count3(
                self.indices@.len() as u64,
                self.blocksize@[0] as u64,
                self.blocksize@[1] as u64,
            );
            assert(self.indices@.len() * self.blocksize@[0] * self.blocksize@[1]
                == self.indices@.len() * (self.blocksize@[0] * self.blocksize@[1]))
                by (nonlinear_arith);
        }
        npz
    }
}

impl<T: Copy> Sparse<T> {
    /// Write a sparse matrix as a fresh container, in whichever variant
    /// it is in.
    pub fn write_npz(&self) -> (out: Npz<T>)
        requires
            s_encode_ok(self@),
        ensures
            out@ == s_encode_sparse(self@),
            npz_wf(out@),
    {
        match self {
            Sparse::Coo(m) => m.write_npz(),
            Sparse::Csc(m) => m.write_npz(),
            Sparse::Csr(m) => m.write_npz(),
            Sparse::Dia(m) => m.write_npz(),
            Sparse::Bsr(m) => m.write_npz(),
        }
    }
}

/// Reinterpret unsigned indices as the signed values stored on disk.
fn wrap_vec_u64(v: &Vec<u64>) -> (r: Vec<i64>)
    ensures
        r@ == s_wrap_seq(v@),
{
    let mut r: Vec<i64> = Vec::new();
    let mut i: usize = 0;
    while i < v.len()
        invariant
            0 <= i <= v.len(),
            r@.len() == i,
            forall|j: int| 0 <= j < i ==> r@[j] == wrap64(v@[j]),
        decreases v.len() - i,
    {
        r.push(wrap_i_u64(v[i]));
        i = i + 1;
    }
    proof {
        assert(r@ =~= s_wrap_seq(v@));
    }
    r
}

/// Reinterpret platform-width indices as the signed values stored on
/// disk.
fn wrap_vec_usize(v: &Vec<usize>) -> (r: Vec<i64>)
    ensures
        r@ == s_wrap_usize_seq(v@),
{
    let mut r: Vec<i64> = Vec::new();
    let mut i: usize = 0;
    while i < v.len()
        invariant
            0 <= i <= v.len(),
            r@.len() == i,
            forall|j: int| 0 <= j < i ==> r@[j] == wrap64(v@[j] as u64),
        decreases v.len() - i,
    {
        r.push(wrap_i_u64(v[i] as u64));
        i = i + 1;
    }
    proof {
        assert(r@ =~= s_wrap_usize_seq(v@));
    }
    r
}

} // verus!
