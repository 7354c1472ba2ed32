//! Two-way integer width conversion: the codec accepts 4-byte or 8-byte
//! signed integers on read (widening to a canonical 8-byte value) and
//! chooses the narrower width on write whenever every value fits it.
//!
//! Index values are unsigned in memory but stored as signed integers on
//! disk; the conversion between the two reinterprets the same 64-bit
//! two's-complement pattern, so every `u64` survives a round trip.

use vstd::prelude::*;

verus! {

/// 2^64.
pub open spec fn two_64() -> int {
    0x1_0000_0000_0000_0000
}

/// The `u64` whose 64-bit pattern is the sign extension of `x`.
pub open spec fn ext32(x: i32) -> u64 {
    if x >= 0 {
        x as u64
    } else {
        (x as int + two_64()) as u64
    }
}

/// The `u64` with the same 64-bit pattern as `x`.
pub open spec fn ext64(x: i64) -> u64 {
    if x >= 0 {
        x as u64
    } else {
        (x as int + two_64()) as u64
    }
}

/// The `i64` with the same 64-bit pattern as `x`.
pub open spec fn wrap64(x: u64) -> i64 {
    if x <= i64::MAX as u64 {
        x as i64
    } else {
        (x as int - two_64()) as i64
    }
}

/// `x` reduced to the platform's index width, as an `as` cast would.
pub open spec fn wrap_usize(x: u64) -> usize {
    (x as int % (usize::MAX as int + 1)) as usize
}

/// Widen a stored 4-byte index to the canonical unsigned width.
pub fn widen_u_i32(x: i32) -> (r: u64)
    ensures
        r == ext32(x),
{
    if x >= 0 {
        x as u64
    } else {
        let y: i64 = (x as i64) + 0x1_0000_0000i64;
        0xFFFF_FFFF_0000_0000u64 + (y as u64)
    }
}

/// Widen a stored 8-byte index to the canonical unsigned width.
pub fn widen_u_i64(x: i64) -> (r: u64)
    ensures
        r == ext64(x),
{
    if x >= 0 {
        x as u64
    } else {
        let y: i64 = x - i64::MIN;
        0x8000_0000_0000_0000u64 + (y as u64)
    }
}

/// Reinterpret an unsigned index as the signed value stored on disk.
pub fn wrap_i_u64(x: u64) -> (r: i64)
    ensures
        r == wrap64(x),
{
    if x <= 0x7FFF_FFFF_FFFF_FFFFu64 {
        x as i64
    } else {
        let y: u64 = x - 0x8000_0000_0000_0000u64;
        (y as i64) + i64::MIN
    }
}

/// Reduce a widened index to the platform's index width, keeping the
/// low bits, as a plain integer cast would.
pub fn u64_to_usize(x: u64) -> (r: usize)
    ensures
        r == wrap_usize(x),
{
    if x <= usize::MAX as u64 {
        proof {
            vstd::arithmetic::div_mod::lemma_small_mod(x as nat, (usize::MAX + 1) as nat);
        }
        x as usize
    } else {
        let m: u64 = (usize::MAX as u64) + 1;
        (x % m) as usize
    }
}

/// Sign extension of a stored 4-byte value to the canonical signed width.
/// (The cast is exact; this name only marks the widening step.)
pub fn widen_s_i32(x: i32) -> (r: i64)
    ensures
        r == x as i64,
{
    x as i64
}

/// Widening and reinterpreting agree: a 4-byte value widened to 8 bytes
/// and reinterpreted as unsigned gives its sign extension.
pub proof fn lemma_ext32_is_ext64(x: i32)
    ensures
        ext32(x) == ext64(x as i64),
{
}

/// Reinterpreting an unsigned index as signed and back is the identity.
pub proof fn lemma_ext64_wrap64(x: u64)
    ensures
        ext64(wrap64(x)) == x,
{
}

/// Narrowing a signed value that fits 4 bytes and sign-extending it back
/// is the identity.
pub proof fn lemma_narrow_widen(x: i64)
    requires
        i32::MIN <= x <= i32::MAX,
    ensures
        (x as i32) as i64 == x,
{
}

/// An index written at the platform's width survives widening and
/// reduction back to that width.
pub proof fn lemma_usize_round(x: usize)
    ensures
        wrap_usize(x as u64) == x,
{
    vstd::arithmetic::div_mod::lemma_small_mod(x as nat, (usize::MAX + 1) as nat);
}

/// Every value of the sequence fits the signed 32-bit range.
pub open spec fn all_fit_i32(s: Seq<i64>) -> bool {
    forall|i: int| 0 <= i < s.len() ==> i32::MIN <= #[trigger] s[i] <= i32::MAX
}

/// Decide whether every value of `v` fits the signed 32-bit range.
pub fn fits_i32(v: &Vec<i64>) -> (b: bool)
    ensures
        b == all_fit_i32(v@),
{
    let mut i: usize = 0;
    while i < v.len()
        invariant
            0 <= i <= v.len(),
            forall|j: int| 0 <= j < i ==> i32::MIN <= #[trigger] v@[j] <= i32::MAX,
        decreases v.len() - i,
    {
        let x = v[i];
        if x < -0x8000_0000i64 || x > 0x7FFF_FFFFi64 {
            return false;
        }
        i = i + 1;
    }
    true
}

} // verus!
