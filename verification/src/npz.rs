//! Model of the named-array container: an ordered sequence of named,
//! shaped, typed arrays, as the archive collaborator presents them.

use vstd::prelude::*;

verus! {

/// Memory order of a multi-dimensional array's element stream.
#[derive(Clone, Copy, Debug, PartialEq, Eq, Structural)]
pub enum Order {
    C,
    Fortran,
}

/// The names under which the codec reads and writes arrays.
#[derive(Clone, Copy, Debug, PartialEq, Eq, Structural)]
pub enum ArrayName {
    Format,
    Shape,
    Row,
    Col,
    Indices,
    Indptr,
    Offsets,
    Data,
}

/// The five stored variant tags of the sparse-matrix convention.
#[derive(Clone, Copy, Debug, PartialEq, Eq, Structural)]
pub enum FormatTag {
    Coo,
    Csr,
    Csc,
    Dia,
    Bsr,
}

/// The three ASCII bytes under which a tag is stored on disk.
pub open spec fn tag_bytes(t: FormatTag) -> Seq<u8> {
    match t {
        FormatTag::Coo => seq![99u8, 111u8, 111u8],
        FormatTag::Csr => seq![99u8, 115u8, 114u8],
        FormatTag::Csc => seq![99u8, 115u8, 99u8],
        FormatTag::Dia => seq![100u8, 105u8, 97u8],
        FormatTag::Bsr => seq![98u8, 115u8, 114u8],
    }
}

impl FormatTag {
    /// The tag's three stored bytes, e.g. `b"coo"`.
    pub fn bytes(&self) -> (v: Vec<u8>)
        ensures
            v@ == tag_bytes(*self),
    {
        let mut v: Vec<u8> = Vec::new();
        match self {
            FormatTag::Coo => {
                v.push(99u8);
                v.push(111u8);
                v.push(111u8);
            },
            FormatTag::Csr => {
                v.push(99u8);
                v.push(115u8);
                v.push(114u8);
            },
            FormatTag::Csc => {
                v.push(99u8);
                v.push(115u8);
                v.push(99u8);
            },
            FormatTag::Dia => {
                v.push(100u8);
                v.push(105u8);
                v.push(97u8);
            },
            FormatTag::Bsr => {
                v.push(98u8);
                v.push(115u8);
                v.push(114u8);
            },
        }
        proof {
            assert(v@ =~= tag_bytes(*self));
        }
        v
    }
}

/// The element dtype families that the container distinguishes for this
/// codec: 4-byte signed integers, 8-byte signed integers, byte strings,
/// and elements of the caller-selected type `T`.
#[derive(Clone, Copy, Debug, PartialEq, Eq, Structural)]
pub enum DTypeKind {
    I32,
    I64,
    Bytes,
    Plain,
}

/// An array's elements, in row-major stream order.
#[derive(Debug, Clone, PartialEq, Eq)]
pub enum Elems<T> {
    /// 4-byte signed integers.
    I32(Vec<i32>),
    /// 8-byte signed integers.
    I64(Vec<i64>),
    /// Fixed-width byte strings (the discriminator's dtype).
    Bytes(Vec<Vec<u8>>),
    /// Elements of the caller-selected type `T`.
    Plain(Vec<T>),
}

/// Mathematical value of [`Elems`].
#[verifier::ext_equal]
pub enum ElemsV<T> {
    I32(Seq<i32>),
    I64(Seq<i64>),
    Bytes(Seq<Seq<u8>>),
    Plain(Seq<T>),
}

impl<T> View for Elems<T> {
    type V = ElemsV<T>;

    open spec fn view(&self) -> ElemsV<T> {
        match self {
            Elems::I32(v) => ElemsV::I32(v@),
            Elems::I64(v) => ElemsV::I64(v@),
            Elems::Bytes(v) => ElemsV::Bytes(v.deep_view()),
            Elems::Plain(v) => ElemsV::Plain(v@),
        }
    }
}

/// Which dtype family a value of [`ElemsV`] belongs to.
pub open spec fn kind_of<T>(e: ElemsV<T>) -> DTypeKind {
    match e {
        ElemsV::I32(_) => DTypeKind::I32,
        ElemsV::I64(_) => DTypeKind::I64,
        ElemsV::Bytes(_) => DTypeKind::Bytes,
        ElemsV::Plain(_) => DTypeKind::Plain,
    }
}

/// How many elements a value of [`ElemsV`] holds.
pub open spec fn elems_len<T>(e: ElemsV<T>) -> nat {
    match e {
        ElemsV::I32(v) => v.len(),
        ElemsV::I64(v) => v.len(),
        ElemsV::Bytes(v) => v.len(),
        ElemsV::Plain(v) => v.len(),
    }
}

impl<T> Elems<T> {
    /// The dtype family of these elements.
    pub fn kind(&self) -> (k: DTypeKind)
        ensures
            k == kind_of(self@),
    {
        match self {
            Elems::I32(_) => DTypeKind::I32,
            Elems::I64(_) => DTypeKind::I64,
            Elems::Bytes(_) => DTypeKind::Bytes,
            Elems::Plain(_) => DTypeKind::Plain,
        }
    }
}

/// One stored array: its declared dimensions, memory order, and elements.
#[derive(Debug, Clone, PartialEq, Eq)]
pub struct Array<T> {
    /// Declared dimension sizes; the rank is this sequence's length.
    pub shape: Vec<u64>,
    /// Memory order of the element stream.
    pub order: Order,
    /// The element stream itself.
    pub elems: Elems<T>,
}

/// Mathematical value of [`Array`].
#[verifier::ext_equal]
pub struct ArrayV<T> {
    pub shape: Seq<u64>,
    pub order: Order,
    pub elems: ElemsV<T>,
}

impl<T> View for Array<T> {
    type V = ArrayV<T>;

    open spec fn view(&self) -> ArrayV<T> {
        ArrayV { shape: self.shape@, order: self.order, elems: self.elems@ }
    }
}

/// The number of elements a shape declares: the product of its dimensions
/// (one, for the zero-dimensional scalar shape).
pub open spec fn shape_count(s: Seq<u64>) -> nat
    decreases s.len(),
{
    if s.len() == 0 {
        1
    } else {
        (s[0] * shape_count(s.drop_first())) as nat
    }
}

/// A stored array always holds exactly as many elements as its declared
/// shape's dimension product; the archive collaborator guarantees this of
/// every array it hands out.
pub open spec fn array_wf<T>(a: ArrayV<T>) -> bool {
    elems_len(a.elems) == shape_count(a.shape)
}

/// The container model: named arrays, in the order they stand in the
/// archive. Nothing forbids duplicate names; a lookup takes the first.
#[derive(Debug, Clone, PartialEq, Eq)]
pub struct Npz<T> {
    pub arrays: Vec<(ArrayName, Array<T>)>,
}

/// Mathematical value of a container.
pub type NpzV<T> = Seq<(ArrayName, ArrayV<T>)>;

impl<T> View for Npz<T> {
    type V = NpzV<T>;

    open spec fn view(&self) -> NpzV<T> {
        self.arrays@.map_values(|p: (ArrayName, Array<T>)| (p.0, p.1@))
    }
}

/// Every array of the container is well formed.
pub open spec fn npz_wf<T>(n: NpzV<T>) -> bool {
    forall|i: int| 0 <= i < n.len() ==> array_wf(#[trigger] n[i].1)
}

/// Copy a vector of elements, as streaming them through the container
/// boundary would.
pub(crate) fn copy_vec<T: Copy>(v: &Vec<T>) -> (r: Vec<T>)
    ensures
        r@ == v@,
{
    let mut r: Vec<T> = Vec::new();
    let mut i: usize = 0;
    while i < v.len()
        invariant
            0 <= i <= v.len(),
            r@ == v@.take(i as int),
        decreases v.len() - i,
    {
        r.push(v[i]);
        proof {
            assert(r@ =~= v@.take(i as int + 1));
        }
        i = i + 1;
    }
    proof {
        assert(r@ =~= v@);
    }
    r
}

/// The first array stored under `name`, if any.
pub open spec fn s_fetch<T>(n: NpzV<T>, name: ArrayName) -> Option<ArrayV<T>>
    decreases n.len(),
{
    if n.len() == 0 {
        None
    } else if n[0].0 == name {
        Some(n[0].1)
    } else {
        s_fetch(n.drop_first(), name)
    }
}

proof fn lemma_fetch_skip<T>(n: NpzV<T>, name: ArrayName, i: int)
    requires
        0 <= i < n.len(),
        n[i].0 != name,
        s_fetch(n, name) == s_fetch(n.skip(i), name),
    ensures
        s_fetch(n, name) == s_fetch(n.skip(i + 1), name),
{
    assert(n.skip(i).len() > 0);
    assert(n.skip(i)[0] == n[i]);
    assert(n.skip(i).drop_first() =~= n.skip(i + 1));
}

impl<T> Npz<T> {
    /// The container's arrays are all well formed.
    pub open spec fn wf(&self) -> bool {
        npz_wf(self@)
    }

    /// Look up the first array stored under `name`.
    pub fn fetch(&self, name: ArrayName) -> (r: Option<&Array<T>>)
        ensures
            match r {
                Some(a) => s_fetch(self@, name) == Some(a@),
                None => s_fetch(self@, name) is None,
            },
    {
        let ghost nv = self@;
        proof {
            assert(nv.skip(0) =~= nv);
        }
        let mut i: usize = 0;
        while i < self.arrays.len()
            invariant
                0 <= i <= self.arrays.len(),
                nv == self@,
                nv.len() == self.arrays.len(),
                s_fetch(nv, name) == s_fetch(nv.skip(i as int), name),
            decreases self.arrays.len() - i,
        {
            proof {
                assert(nv[i as int] == (self.arrays@[i as int].0, self.arrays@[i as int].1@));
            }
            let p = &self.arrays[i];
            if p.0 == name {
                proof {
                    assert(nv.skip(i as int)[0] == nv[i as int]);
                    assert(s_fetch(nv.skip(i as int), name) == Some(nv[i as int].1));
                }
                return Some(&p.1);
            }
            proof {
                lemma_fetch_skip(nv, name, i as int);
            }
            i = i + 1;
        }
        proof {
            assert(nv.skip(i as int).len() == 0);
        }
        None
    }
}

} // verus!
