//! Mathematical model of the FNV-1a fold.
//!
//! The executable hash functions in the crate root are proved to return
//! exactly the values of the spec functions defined here: a left fold of
//! XOR-then-multiply steps over a byte sequence, seeded from the width's
//! offset basis, with an optional length limit and an optional bit-level
//! case transform applied to each byte before it is folded in.

use vstd::prelude::*;

verus! {

/// FNV offset basis for the 32-bit width.
pub const FNV_OFFSET_BASIS_32: u32 = 0x811c9dc5;

/// FNV offset basis for the 64-bit width.
pub const FNV_OFFSET_BASIS_64: u64 = 0xcbf29ce484222325;

/// FNV prime for the 32-bit width.
pub const FNV_PRIME_32: u32 = 0x01000193;

/// FNV prime for the 64-bit width.
pub const FNV_PRIME_64: u64 = 0x00000100000001B3;

/// Bit 5 of a byte, the bit that distinguishes an ASCII upper-case letter
/// from its lower-case counterpart.
pub const ASCII_CASE_MASK: u8 = 0b0010_0000;

/// The per-byte case transform: when `case` is set and bit 5 of the byte is
/// set, bit 5 is cleared; otherwise the byte is unchanged. This is a raw
/// bit-pattern rule, not a true letter test: it also clears bit 5 of
/// non-letter bytes in the same bit-5 class.
pub open spec fn fold_case(b: u8, case: bool) -> u8 {
    if case && (b & ASCII_CASE_MASK) == ASCII_CASE_MASK {
        b ^ ASCII_CASE_MASK
    } else {
        b
    }
}

/// The effective number of bytes consumed: a supplied limit counts only when
/// it is positive and no larger than the input length; a zero or oversized
/// limit means the whole input.
pub open spec fn effective_len(len: nat, limit: Option<usize>) -> nat {
    match limit {
        Some(v) => if 0 < v && v <= len { v as nat } else { len },
        None => len,
    }
}

/// The 64-bit FNV-1a fold over a whole byte sequence: starting from the
/// offset basis, each byte (after the case transform) is XORed into the
/// accumulator, which is then multiplied by the FNV prime modulo `2^64`.
pub open spec fn fnv1a_64(bytes: Seq<u8>, case: bool) -> u64
    decreases bytes.len(),
{
    if bytes.len() == 0 {
        FNV_OFFSET_BASIS_64
    } else {
        (fnv1a_64(bytes.drop_last(), case) ^ (fold_case(bytes.last(), case) as u64)).wrapping_mul(
            FNV_PRIME_64,
        )
    }
}

/// The 32-bit FNV-1a fold over a whole byte sequence, as `fnv1a_64` but with
/// the 32-bit offset basis and prime, modulo `2^32`.
pub open spec fn fnv1a_32(bytes: Seq<u8>, case: bool) -> u32
    decreases bytes.len(),
{
    if bytes.len() == 0 {
        FNV_OFFSET_BASIS_32
    } else {
        (fnv1a_32(bytes.drop_last(), case) ^ (fold_case(bytes.last(), case) as u32)).wrapping_mul(
            FNV_PRIME_32,
        )
    }
}

/// The 64-bit hash of a byte sequence under an optional limit: the fold over
/// the effective-length prefix.
pub open spec fn hash_64(bytes: Seq<u8>, limit: Option<usize>, case: bool) -> u64 {
    fnv1a_64(bytes.take(effective_len(bytes.len(), limit) as int), case)
}

/// The 32-bit hash of a byte sequence under an optional limit: the fold over
/// the effective-length prefix.
pub open spec fn hash_32(bytes: Seq<u8>, limit: Option<usize>, case: bool) -> u32 {
    fnv1a_32(bytes.take(effective_len(bytes.len(), limit) as int), case)
}

/// XOR-folding of a 32-bit value into 16 bits: the upper half XORed with the
/// lower half. Because XOR is commutative, this value does not depend on the
/// order in which the two halves are taken, so it coincides with the
/// native-byte-order split of the 32-bit value on both little- and
/// big-endian hosts.
pub open spec fn xor_fold_16(h: u32) -> u16 {
    (((h >> 16) & 0xffff) as u16) ^ ((h & 0xffff) as u16)
}

/// The 16-bit hash: the 32-bit hash (never case-folded) XOR-folded into 16
/// bits.
pub open spec fn hash_16_xor(bytes: Seq<u8>, limit: Option<usize>) -> u16 {
    xor_fold_16(hash_32(bytes, limit, false))
}

} // verus!
