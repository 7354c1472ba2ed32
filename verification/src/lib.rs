//! A verified codec between in-memory sparse-matrix records and the
//! named-array container convention that the scientific-Python ecosystem
//! uses to save sparse matrices.
//!
//! The container itself (archive layout, array headers, element
//! serialization) is an external collaborator; this crate models it as a
//! sequence of named, shaped, typed arrays and verifies the codec logic:
//! dispatch on the stored format tag, per-variant decoding with rank and
//! dtype validation, integer-width widening on read, and space-optimal
//! integer-width selection on write.

pub mod error;
pub mod laws;
pub mod npz;
pub mod read;
pub mod sparse;
pub mod width;
pub mod write;

pub use error::NpzError;
pub use npz::Array;
pub use npz::ArrayName;
pub use npz::DTypeKind;
pub use npz::Elems;
pub use npz::FormatTag;
pub use npz::Npz;
pub use npz::Order;
pub use sparse::Bsr;
pub use sparse::Coo;
pub use sparse::Csc;
pub use sparse::Csr;
pub use sparse::Dia;
pub use sparse::Sparse;
