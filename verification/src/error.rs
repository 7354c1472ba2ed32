//! Decode errors: every way a container can fail to yield a record, with
//! enough context to diagnose a malformed or foreign-produced archive.

use vstd::prelude::*;

use crate::npz::ArrayName;
use crate::npz::DTypeKind;
use crate::npz::FormatTag;

verus! {

/// Why a decode call rejected its container.
///
/// Encode has no counterpart: shape and length inconsistencies of a
/// record handed to encode are caller contract violations, excluded by
/// preconditions rather than reported as values.
#[derive(Debug, Clone, PartialEq, Eq)]
pub enum NpzError {
    /// The named array is absent from the container.
    MissingArray { name: ArrayName },
    /// The named array's rank differs from the one the codec expects.
    InvalidRank { name: ArrayName, expected: usize, actual: usize },
    /// An index or offset array is stored under a dtype that is neither
    /// 4-byte nor 8-byte signed integers.
    InvalidDType { name: ArrayName, dtype: DTypeKind },
    /// The dimension array does not hold exactly two values.
    InvalidShape { name: ArrayName, len: usize },
    /// The discriminator holds bytes that name none of the five variants.
    InvalidFormat { raw: Vec<u8> },
    /// A variant decoder was pointed at a container whose discriminator
    /// names a different variant.
    FormatMismatch { expected: FormatTag, actual: Vec<u8> },
    /// A multi-dimensional data array is not in row-major order.
    UnsupportedOrder { name: ArrayName },
    /// The named array's elements cannot be materialized at the type the
    /// codec asked the array layer for (passed through, not wrapped).
    BadElements { name: ArrayName, dtype: DTypeKind },
}

/// Mathematical value of [`NpzError`].
#[verifier::ext_equal]
pub enum ErrV {
    MissingArray { name: ArrayName },
    InvalidRank { name: ArrayName, expected: int, actual: int },
    InvalidDType { name: ArrayName, dtype: DTypeKind },
    InvalidShape { name: ArrayName, len: int },
    InvalidFormat { raw: Seq<u8> },
    FormatMismatch { expected: FormatTag, actual: Seq<u8> },
    UnsupportedOrder { name: ArrayName },
    BadElements { name: ArrayName, dtype: DTypeKind },
}

impl View for NpzError {
    type V = ErrV;

    open spec fn view(&self) -> ErrV {
        match self {
            NpzError::MissingArray { name } => ErrV::MissingArray { name: *name },
            NpzError::InvalidRank { name, expected, actual } => ErrV::InvalidRank {
                name: *name,
                expected: *expected as int,
                actual: *actual as int,
            },
            NpzError::InvalidDType { name, dtype } => ErrV::InvalidDType {
                name: *name,
                dtype: *dtype,
            },
            NpzError::InvalidShape { name, len } => ErrV::InvalidShape {
                name: *name,
                len: *len as int,
            },
            NpzError::InvalidFormat { raw } => ErrV::InvalidFormat { raw: raw@ },
            NpzError::FormatMismatch { expected, actual } => ErrV::FormatMismatch {
                expected: *expected,
                actual: actual@,
            },
            NpzError::UnsupportedOrder { name } => ErrV::UnsupportedOrder { name: *name },
            NpzError::BadElements { name, dtype } => ErrV::BadElements {
                name: *name,
                dtype: *dtype,
            },
        }
    }
}

/// The ASCII byte that renders the hexadecimal digit `x`.
pub open spec fn s_hex_digit(x: u8) -> u8 {
    if x < 10 {
        (48 + x) as u8
    } else {
        (55 + x) as u8
    }
}

/// The printable rendering of one byte: itself if printable ASCII, else
/// a backslash-x escape with two upper-case hexadecimal digits.
pub open spec fn s_show_byte(b: u8) -> Seq<u8> {
    if 0x20 <= b && b <= 0x7f {
        seq![b]
    } else {
        seq![92u8, 120u8, s_hex_digit(b / 16), s_hex_digit(b % 16)]
    }
}

/// The printable rendering of a byte sequence, byte by byte.
pub open spec fn s_show_bytes(s: Seq<u8>) -> Seq<u8>
    decreases s.len(),
{
    if s.len() == 0 {
        Seq::empty()
    } else {
        s_show_byte(s[0]) + s_show_bytes(s.drop_first())
    }
}

/// The printable rendering of a stored discriminator value: its bytes,
/// escaped where unprintable, between single quotes.
pub open spec fn s_show_format(s: Seq<u8>) -> Seq<u8> {
    seq![39u8] + s_show_bytes(s) + seq![39u8]
}

proof fn lemma_show_bytes_step(s: Seq<u8>, i: int)
    requires
        0 <= i < s.len(),
    ensures
        s_show_bytes(s.skip(i)) == s_show_byte(s[i]) + s_show_bytes(s.skip(i + 1)),
{
    assert(s.skip(i).len() > 0);
    assert(s.skip(i)[0] == s[i]);
    assert(s.skip(i).drop_first() =~= s.skip(i + 1));
}

/// Render a stored discriminator value for diagnostics: printable ASCII
/// bytes stand as they are, anything else as a backslash-x escape, the
/// whole between single quotes.
pub fn show_format(format: &Vec<u8>) -> (r: Vec<u8>)
    ensures
        r@ == s_show_format(format@),
{
    let ghost fv = format@;
    let mut out: Vec<u8> = Vec::new();
    out.push(39u8);
    proof {
        assert(fv.skip(0) =~= fv);
        assert(out@ + s_show_bytes(fv.skip(0)) =~= seq![39u8] + s_show_bytes(fv));
    }
    let mut i: usize = 0;
    while i < format.len()
        invariant
            0 <= i <= format.len(),
            fv == format@,
            out@ + s_show_bytes(fv.skip(i as int)) == seq![39u8] + s_show_bytes(fv),
        decreases format.len() - i,
    {
        let b = format[i];
        let ghost out0 = out@;
        proof {
            lemma_show_bytes_step(fv, i as int);
        }
        if 0x20 <= b && b <= 0x7f {
            out.push(b);
        } else {
            out.push(92u8);
            out.push(120u8);
            out.push(hex_digit(b / 16));
            out.push(hex_digit(b % 16));
        }
        proof {
            assert(out@ =~= out0 + s_show_byte(fv[i as int]));
            assert(out@ + s_show_bytes(fv.skip(i as int + 1)) =~= out0 + s_show_bytes(
                fv.skip(i as int),
            ));
        }
        i = i + 1;
    }
    out.push(39u8);
    proof {
        assert(fv.skip(i as int) =~= Seq::<u8>::empty());
        assert(s_show_bytes(Seq::<u8>::empty()) =~= Seq::<u8>::empty());
        assert(out@ =~= s_show_format(fv));
    }
    out
}

/// The ASCII byte rendering the hexadecimal digit `x`.
fn hex_digit(x: u8) -> (r: u8)
    requires
        x < 16,
    ensures
        r == s_hex_digit(x),
{
    if x < 10 {
        48 + x
    } else {
        55 + x
    }
}

} // verus!
