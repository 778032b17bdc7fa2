//! A minimal, dependency-free FNV-1a hashing library at 16-, 32- and 64-bit
//! widths, for deterministic non-cryptographic hashes of byte sequences or
//! text, optionally limited to a prefix of the input and optionally
//! normalised for ASCII case by a bit-level rule.
//!
//! Each executable hash function carries a contract pinning its result to
//! the spec-level fold in [`model`]; the laws the library obeys (limit
//! clamping and truncation, case-fold equivalence, width consistency) are
//! stated and proved in [`laws`].

use vstd::prelude::*;
use vstd::string::StringSliceAdditionalSpecFns;

pub mod laws;
pub mod model;

use crate::model::ASCII_CASE_MASK;
use crate::model::FNV_OFFSET_BASIS_32;
use crate::model::FNV_OFFSET_BASIS_64;
use crate::model::FNV_PRIME_32;
use crate::model::FNV_PRIME_64;
use crate::model::effective_len;
use crate::model::fnv1a_32;
use crate::model::fnv1a_64;
use crate::model::hash_16_xor;
use crate::model::hash_32;
use crate::model::hash_64;

verus! {

/// Computes the 64-bit FNV-1a hash of the given slice, or of its prefix of
/// `limit` bytes if `0 < limit <= bytes.len()`; a zero or oversized limit
/// means the whole slice. When `case` is set, bit 5 is cleared from every
/// byte that has it set before the byte is folded in.
pub fn fnv1a_hash_64(bytes: &[u8], limit: Option<usize>, case: bool) -> (hash: u64)
    ensures
        hash == hash_64(bytes@, limit, case),
{
    let len: usize = match limit {
        Some(v) => if v <= bytes.len() && v > 0 {
            v
        } else {
            bytes.len()
        },
        None => bytes.len(),
    };
    let mut hash: u64 = FNV_OFFSET_BASIS_64;
    let mut i: usize = 0;
    while i < len
        invariant
            i <= len,
            len <= bytes@.len(),
            len as nat == effective_len(bytes@.len(), limit),
            hash == fnv1a_64(bytes@.take(i as int), case),
        decreases len - i,
    {
        let b: u8 = bytes[i];
        let value: u8 = if case && (b & ASCII_CASE_MASK) == ASCII_CASE_MASK {
            b ^ ASCII_CASE_MASK
        } else {
            b
        };
        hash = (hash ^ (value as u64)).wrapping_mul(FNV_PRIME_64);
        i = i + 1;
        proof {
            let prefix: Seq<u8> = bytes@.take(i as int);
            assert(prefix.drop_last() =~= bytes@.take(i as int - 1));
            assert(hash == fnv1a_64(prefix, case));
        }
    }
    proof {
        assert(bytes@.take(len as int) =~= bytes@.take(
            effective_len(bytes@.len(), limit) as int,
        ));
    }
    hash
}

/// Computes the 32-bit FNV-1a hash of the given slice, or of its prefix of
/// `limit` bytes if `0 < limit <= bytes.len()`; a zero or oversized limit
/// means the whole slice. When `case` is set, bit 5 is cleared from every
/// byte that has it set before the byte is folded in.
pub fn fnv1a_hash_32(bytes: &[u8], limit: Option<usize>, case: bool) -> (hash: u32)
    ensures
        hash == hash_32(bytes@, limit, case),
{
    let len: usize = match limit {
        Some(v) => if v <= bytes.len() && v > 0 {
            v
        } else {
            bytes.len()
        },
        None => bytes.len(),
    };
    let mut hash: u32 = FNV_OFFSET_BASIS_32;
    let mut i: usize = 0;
    while i < len
        invariant
            i <= len,
            len <= bytes@.len(),
            len as nat == effective_len(bytes@.len(), limit),
            hash == fnv1a_32(bytes@.take(i as int), case),
        decreases len - i,
    {
        let b: u8 = bytes[i];
        let value: u8 = if case && (b & ASCII_CASE_MASK) == ASCII_CASE_MASK {
            b ^ ASCII_CASE_MASK
        } else {
            b
        };
        hash = (hash ^ (value as u32)).wrapping_mul(FNV_PRIME_32);
        i = i + 1;
        proof {
            let prefix: Seq<u8> = bytes@.take(i as int);
            assert(prefix.drop_last() =~= bytes@.take(i as int - 1));
            assert(hash == fnv1a_32(prefix, case));
        }
    }
    proof {
        assert(bytes@.take(len as int) =~= bytes@.take(
            effective_len(bytes@.len(), limit) as int,
        ));
    }
    hash
}

/// Computes the 32-bit FNV-1a hash (case-folding disabled) and XORs its
/// upper and lower 16-bit halves into a 16-bit hash value, over the slice's
/// prefix of `limit` bytes if `0 < limit <= bytes.len()`, else the whole
/// slice. XOR is commutative, so the result is independent of the byte
/// order in which the two halves of the 32-bit value are split out.
pub fn fnv1a_hash_16_xor(bytes: &[u8], limit: Option<usize>) -> (hash: u16)
    ensures
        hash == hash_16_xor(bytes@, limit),
{
    let h: u32 = fnv1a_hash_32(bytes, limit, false);
    let upper: u16 = ((h >> 16) & 0xffff) as u16;
    let lower: u16 = (h & 0xffff) as u16;
    upper ^ lower
}

/// Computes the 64-bit FNV-1a hash of a string's UTF-8 bytes, with no limit
/// and no case-folding.
pub fn fnv1a_hash_str_64(input: &str) -> (hash: u64)
    ensures
        hash == hash_64(input.spec_bytes(), None, false),
{
    fnv1a_hash_64(input.as_bytes(), None, false)
}

/// Computes the 32-bit FNV-1a hash of a string's UTF-8 bytes, with no limit
/// and no case-folding.
pub fn fnv1a_hash_str_32(input: &str) -> (hash: u32)
    ensures
        hash == hash_32(input.spec_bytes(), None, false),
{
    fnv1a_hash_32(input.as_bytes(), None, false)
}

/// Computes the 16-bit XOR-folded FNV-1a hash of a string's UTF-8 bytes,
/// with no limit.
pub fn fnv1a_hash_str_16_xor(input: &str) -> (hash: u16)
    ensures
        hash == hash_16_xor(input.spec_bytes(), None),
{
    fnv1a_hash_16_xor(input.as_bytes(), None)
}

} // verus!
