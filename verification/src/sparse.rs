//! The data model: five fixed-shape record types for the five sparse
//! encodings, and the tagged union over them.

use vstd::prelude::*;

verus! {

/// A sparse matrix, in any of the five variant encodings.
#[derive(Debug, Clone, PartialEq, Eq)]
pub enum Sparse<T> {
    /// The matrix is in coordinate format.
    Coo(Coo<T>),
    /// The matrix is in compressed sparse row format.
    Csr(Csr<T>),
    /// The matrix is in compressed sparse column format.
    Csc(Csc<T>),
    /// The matrix is in diagonal format.
    Dia(Dia<T>),
    /// The matrix is in block sparse row format.
    Bsr(Bsr<T>),
}

/// A sparse matrix in coordinate format.
#[derive(Debug, Clone, PartialEq, Eq)]
pub struct Coo<T> {
    /// Dimensions of the matrix `[nrow, ncol]`.
    pub shape: [u64; 2],
    /// The stored elements, `nnz` of them.
    pub data: Vec<T>,
    /// The row of each stored element; length `nnz`.
    pub row: Vec<u64>,
    /// The column of each stored element; length `nnz`.
    pub col: Vec<u64>,
}

/// A sparse matrix in compressed sparse row format.
#[derive(Debug, Clone, PartialEq, Eq)]
pub struct Csr<T> {
    /// Dimensions of the matrix `[nrow, ncol]`.
    pub shape: [u64; 2],
    /// The stored elements, sorted by row; length `nnz`.
    pub data: Vec<T>,
    /// The column of each stored element; length `nnz`. Columns within a
    /// row need not be sorted: the origin ecosystem does not require it.
    pub indices: Vec<u64>,
    /// Partition boundaries cutting `data` and `indices` into rows;
    /// typically of length `nrow + 1`, nondecreasing, starting at 0 and
    /// ending at `nnz`, though none of that is validated here or by the
    /// origin ecosystem — a round-trip hazard, not a bug.
    pub indptr: Vec<usize>,
}

/// A sparse matrix in compressed sparse column format.
#[derive(Debug, Clone, PartialEq, Eq)]
pub struct Csc<T> {
    /// Dimensions of the matrix `[nrow, ncol]`.
    pub shape: [u64; 2],
    /// The stored elements, sorted by column; length `nnz`.
    pub data: Vec<T>,
    /// The row of each stored element; length `nnz`. Rows within a
    /// column need not be sorted: the origin ecosystem does not require
    /// it.
    pub indices: Vec<u64>,
    /// Partition boundaries cutting `data` and `indices` into columns;
    /// typically of length `ncol + 1`, but, as for [`Csr`], unvalidated.
    pub indptr: Vec<usize>,
}

/// A sparse matrix in diagonal format.
#[derive(Debug, Clone, PartialEq, Eq)]
pub struct Dia<T> {
    /// Dimensions of the matrix `[nrow, ncol]`.
    pub shape: [u64; 2],
    /// The row-major elements of a logical block of shape
    /// `[len(offsets), length]`, one row per stored diagonal.
    pub data: Vec<T>,
    /// Which diagonal each row of `data` holds; negative offsets lie
    /// below the main diagonal, and the order is unconstrained.
    pub offsets: Vec<i64>,
}

/// A sparse matrix in block sparse row format.
#[derive(Debug, Clone, PartialEq, Eq)]
pub struct Bsr<T> {
    /// Dimensions of the matrix `[nrow, ncol]`; each must be divisible
    /// by the respective element of `blocksize`.
    pub shape: [u64; 2],
    /// Size of the stored blocks.
    pub blocksize: [usize; 2],
    /// The row-major elements of a logical block of shape
    /// `[len(indices), blocksize[0], blocksize[1]]`: the flattened data
    /// of all stored blocks, sorted by superrow.
    pub data: Vec<T>,
    /// The supercolumn of each stored block; length `nnzb`. Supercolumns
    /// within a superrow need not be sorted.
    pub indices: Vec<u64>,
    /// Partition boundaries cutting `indices` and the outermost axis of
    /// `data` into superrows; typically of length
    /// `nrow / blocksize[0] + 1`, but, as for [`Csr`], unvalidated.
    pub indptr: Vec<usize>,
}

/// Mathematical value of [`Coo`].
#[verifier::ext_equal]
pub struct CooV<T> {
    pub shape: (u64, u64),
    pub data: Seq<T>,
    pub row: Seq<u64>,
    pub col: Seq<u64>,
}

/// Mathematical value of [`Csr`].
#[verifier::ext_equal]
pub struct CsrV<T> {
    pub shape: (u64, u64),
    pub data: Seq<T>,
    pub indices: Seq<u64>,
    pub indptr: Seq<usize>,
}

/// Mathematical value of [`Csc`].
#[verifier::ext_equal]
pub struct CscV<T> {
    pub shape: (u64, u64),
    pub data: Seq<T>,
    pub indices: Seq<u64>,
    pub indptr: Seq<usize>,
}

/// Mathematical value of [`Dia`].
#[verifier::ext_equal]
pub struct DiaV<T> {
    pub shape: (u64, u64),
    pub data: Seq<T>,
    pub offsets: Seq<i64>,
}

/// Mathematical value of [`Bsr`].
#[verifier::ext_equal]
pub struct BsrV<T> {
    pub shape: (u64, u64),
    pub blocksize: (usize, usize),
    pub data: Seq<T>,
    pub indices: Seq<u64>,
    pub indptr: Seq<usize>,
}

/// Mathematical value of [`Sparse`].
#[verifier::ext_equal]
pub enum SparseV<T> {
    Coo(CooV<T>),
    Csr(CsrV<T>),
    Csc(CscV<T>),
    Dia(DiaV<T>),
    Bsr(BsrV<T>),
}

impl<T> View for Coo<T> {
    type V = CooV<T>;

    open spec fn view(&self) -> CooV<T> {
        CooV {
            shape: (self.shape@[0], self.shape@[1]),
            data: self.data@,
            row: self.row@,
            col: self.col@,
        }
    }
}

impl<T> View for Csr<T> {
    type V = CsrV<T>;

    open spec fn view(&self) -> CsrV<T> {
        CsrV {
            shape: (self.shape@[0], self.shape@[1]),
            data: self.data@,
            indices: self.indices@,
            indptr: self.indptr@,
        }
    }
}

impl<T> View for Csc<T> {
    type V = CscV<T>;

    open spec fn view(&self) -> CscV<T> {
        CscV {
            shape: (self.shape@[0], self.shape@[1]),
            data: self.data@,
            indices: self.indices@,
            indptr: self.indptr@,
        }
    }
}

impl<T> View for Dia<T> {
    type V = DiaV<T>;

    open spec fn view(&self) -> DiaV<T> {
        DiaV {
            shape: (self.shape@[0], self.shape@[1]),
            data: self.data@,
            offsets: self.offsets@,
        }
    }
}

impl<T> View for Bsr<T> {
    type V = BsrV<T>;

    open spec fn view(&self) -> BsrV<T> {
        BsrV {
            shape: (self.shape@[0], self.shape@[1]),
            blocksize: (self.blocksize@[0], self.blocksize@[1]),
            data: self.data@,
            indices: self.indices@,
            indptr: self.indptr@,
        }
    }
}

impl<T> View for Sparse<T> {
    type V = SparseV<T>;

    open spec fn view(&self) -> SparseV<T> {
        match self {
            Sparse::Coo(m) => SparseV::Coo(m@),
            Sparse::Csr(m) => SparseV::Csr(m@),
            Sparse::Csc(m) => SparseV::Csc(m@),
            Sparse::Dia(m) => SparseV::Dia(m@),
            Sparse::Bsr(m) => SparseV::Bsr(m@),
        }
    }
}

} // verus!
