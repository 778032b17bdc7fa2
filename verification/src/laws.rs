//! Laws the hash functions obey, stated over the spec-level model and proved
//! once for all inputs. Each executable hash pins its result to the model,
//! so these laws carry over to the executable functions directly.

use vstd::prelude::*;

use crate::model::ASCII_CASE_MASK;
use crate::model::FNV_OFFSET_BASIS_32;
use crate::model::FNV_OFFSET_BASIS_64;
use crate::model::fnv1a_32;
use crate::model::fnv1a_64;
use crate::model::fold_case;
use crate::model::hash_16_xor;
use crate::model::hash_32;
use crate::model::hash_64;
use crate::model::xor_fold_16;

verus! {

/// A byte is an ASCII letter: an upper-case letter `A` to `Z` or a
/// lower-case letter `a` to `z`.
pub open spec fn is_ascii_letter(b: u8) -> bool {
    (0x41 <= b && b <= 0x5a) || (0x61 <= b && b <= 0x7a)
}

/// ASCII lower-casing of one byte: an upper-case letter gets bit 5 set,
/// every other byte is unchanged.
pub open spec fn to_ascii_lower(b: u8) -> u8 {
    if 0x41 <= b && b <= 0x5a {
        b | ASCII_CASE_MASK
    } else {
        b
    }
}

/// ASCII lower-casing of a whole byte sequence, byte by byte.
pub open spec fn lower_bytes(bytes: Seq<u8>) -> Seq<u8> {
    bytes.map_values(|b: u8| to_ascii_lower(b))
}

/// Hashing is deterministic: identical byte sequences, limits and flags
/// give identical hash values at every width.
pub proof fn lemma_hash_deterministic(
    b1: Seq<u8>,
    b2: Seq<u8>,
    l1: Option<usize>,
    l2: Option<usize>,
    c1: bool,
    c2: bool,
)
    requires
        b1 == b2,
        l1 == l2,
        c1 == c2,
    ensures
        hash_64(b1, l1, c1) == hash_64(b2, l2, c2),
        hash_32(b1, l1, c1) == hash_32(b2, l2, c2),
        hash_16_xor(b1, l1) == hash_16_xor(b2, l2),
{
}

/// On an ASCII letter, the case transform gives the same byte whether it is
/// applied to the letter or to its lower-cased form.
proof fn lemma_fold_case_of_lower(b: u8)
    requires
        is_ascii_letter(b),
    ensures
        fold_case(to_ascii_lower(b), true) == fold_case(b, true),
{
    if 0x41 <= b && b <= 0x5a {
        assert(((b | 0x20) & 0x20) == 0x20 && ((b | 0x20) ^ 0x20) == b && (b & 0x20) != 0x20)
            by (bit_vector)
            requires
                0x41 <= b && b <= 0x5a,
        ;
    }
}

/// The fold with case-folding enabled does not distinguish a sequence of
/// ASCII letters from its lower-cased form.
proof fn lemma_fnv1a_of_lower(bytes: Seq<u8>)
    requires
        forall|i: int| 0 <= i < bytes.len() ==> is_ascii_letter(#[trigger] bytes[i]),
    ensures
        fnv1a_64(lower_bytes(bytes), true) == fnv1a_64(bytes, true),
        fnv1a_32(lower_bytes(bytes), true) == fnv1a_32(bytes, true),
    decreases bytes.len(),
{
    if bytes.len() == 0 {
        assert(lower_bytes(bytes) =~= bytes);
    } else {
        let prefix: Seq<u8> = bytes.drop_last();
        assert(lower_bytes(bytes).drop_last() =~= lower_bytes(prefix));
        assert(lower_bytes(bytes).last() == to_ascii_lower(bytes.last()));
        lemma_fold_case_of_lower(bytes.last());
        lemma_fnv1a_of_lower(prefix);
    }
}

/// Case-fold equivalence: for a byte sequence of ASCII letters, the hash
/// with case-folding enabled equals the hash of its lower-cased form.
pub proof fn lemma_case_fold_equivalence(bytes: Seq<u8>)
    requires
        forall|i: int| 0 <= i < bytes.len() ==> is_ascii_letter(#[trigger] bytes[i]),
    ensures
        hash_64(lower_bytes(bytes), None, true) == hash_64(bytes, None, true),
        hash_32(lower_bytes(bytes), None, true) == hash_32(bytes, None, true),
{
    lemma_fnv1a_of_lower(bytes);
    assert(lower_bytes(bytes).take(lower_bytes(bytes).len() as int) =~= lower_bytes(bytes));
    assert(bytes.take(bytes.len() as int) =~= bytes);
}

/// Limit clamping: a limit of zero, or one larger than the input, hashes
/// exactly as no limit does.
pub proof fn lemma_limit_clamping(bytes: Seq<u8>, l: usize, case: bool)
    requires
        l == 0 || l > bytes.len(),
    ensures
        hash_64(bytes, Some(l), case) == hash_64(bytes, None, case),
        hash_32(bytes, Some(l), case) == hash_32(bytes, None, case),
        hash_16_xor(bytes, Some(l)) == hash_16_xor(bytes, None),
{
}

/// Limit truncation: hashing under a limit that falls inside the input
/// equals hashing that prefix with no limit.
pub proof fn lemma_limit_truncation(bytes: Seq<u8>, k: usize, case: bool)
    requires
        0 < k < bytes.len(),
    ensures
        hash_64(bytes, Some(k), case) == hash_64(bytes.take(k as int), None, case),
        hash_32(bytes, Some(k), case) == hash_32(bytes.take(k as int), None, case),
        hash_16_xor(bytes, Some(k)) == hash_16_xor(bytes.take(k as int), None),
{
    assert(bytes.take(k as int).take(k as int) =~= bytes.take(k as int));
}

/// Width consistency: the 16-bit hash is the XOR of the upper and lower
/// 16-bit halves of the 32-bit hash with case-folding disabled.
pub proof fn lemma_width_consistency(bytes: Seq<u8>, limit: Option<usize>)
    ensures
        hash_16_xor(bytes, limit) == xor_fold_16(hash_32(bytes, limit, false)),
{
}

/// The hash of the empty input is the width's offset basis, under any limit
/// and either case flag.
pub proof fn lemma_empty_input_hash(limit: Option<usize>, case: bool)
    ensures
        hash_64(Seq::<u8>::empty(), limit, case) == FNV_OFFSET_BASIS_64,
        hash_32(Seq::<u8>::empty(), limit, case) == FNV_OFFSET_BASIS_32,
{
    assert(Seq::<u8>::empty().take(0) =~= Seq::<u8>::empty());
}

} // verus!
