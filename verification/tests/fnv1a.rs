use fnv1a_hash::fnv1a_hash_16_xor;
use fnv1a_hash::fnv1a_hash_32;
use fnv1a_hash::fnv1a_hash_64;
use fnv1a_hash::fnv1a_hash_str_16_xor;
use fnv1a_hash::fnv1a_hash_str_32;
use fnv1a_hash::fnv1a_hash_str_64;

#[test]
fn fnv1a_test_case_comparison() {
    let bytes = ['A' as u8, 'B' as u8];
    assert_eq!(fnv1a_hash_64(&bytes, None, false), fnv1a_hash_64(&bytes, None, true));
    assert_eq!(fnv1a_hash_32(&bytes, None, false), fnv1a_hash_32(&bytes, None, true));

    let bytes = ['a' as u8, 'B' as u8];
    assert_ne!(fnv1a_hash_64(&bytes, None, false), fnv1a_hash_64(&bytes, None, true));
    assert_ne!(fnv1a_hash_32(&bytes, None, false), fnv1a_hash_32(&bytes, None, true));

    let bytes = ['a' as u8, 'B' as u8];
    let comparison = ['A' as u8, 'B' as u8];
    assert_eq!(fnv1a_hash_64(&bytes, None, true), fnv1a_hash_64(&comparison, None, true));
    assert_eq!(fnv1a_hash_32(&bytes, None, true), fnv1a_hash_32(&comparison, None, true));
}

#[test]
fn determinism_same_arguments_same_hash() {
    let bytes = b"determinism";
    assert_eq!(
        fnv1a_hash_64(bytes, Some(4), true),
        fnv1a_hash_64(bytes, Some(4), true)
    );
    assert_eq!(
        fnv1a_hash_32(bytes, None, false),
        fnv1a_hash_32(bytes, None, false)
    );
    assert_eq!(fnv1a_hash_16_xor(bytes, Some(7)), fnv1a_hash_16_xor(bytes, Some(7)));
}

#[test]
fn known_vectors_empty_input() {
    assert_eq!(fnv1a_hash_64(&[], None, false), 0xcbf29ce484222325);
    assert_eq!(fnv1a_hash_32(&[], None, false), 0x811c9dc5);
    assert_eq!(fnv1a_hash_16_xor(&[], None), 0x811c ^ 0x9dc5);
    assert_eq!(fnv1a_hash_str_64(""), 0xcbf29ce484222325);
    assert_eq!(fnv1a_hash_str_32(""), 0x811c9dc5);
}

#[test]
fn known_vectors_nonempty_input() {
    assert_eq!(fnv1a_hash_64(b"a", None, false), 0xaf63dc4c8601ec8c);
    assert_eq!(fnv1a_hash_32(b"a", None, false), 0xe40c292c);
    assert_eq!(fnv1a_hash_64(b"foobar", None, false), 0x85944171f73967e8);
    assert_eq!(fnv1a_hash_32(b"foobar", None, false), 0xbf9cf968);
}

#[test]
fn limit_zero_and_oversized_are_clamped() {
    let bytes = b"hello";
    for case in [false, true] {
        assert_eq!(
            fnv1a_hash_64(bytes, Some(0), case),
            fnv1a_hash_64(bytes, None, case)
        );
        assert_eq!(
            fnv1a_hash_64(bytes, Some(bytes.len() + 1), case),
            fnv1a_hash_64(bytes, None, case)
        );
        assert_eq!(
            fnv1a_hash_64(bytes, Some(usize::MAX), case),
            fnv1a_hash_64(bytes, None, case)
        );
        assert_eq!(
            fnv1a_hash_32(bytes, Some(0), case),
            fnv1a_hash_32(bytes, None, case)
        );
        assert_eq!(
            fnv1a_hash_32(bytes, Some(bytes.len() + 1), case),
            fnv1a_hash_32(bytes, None, case)
        );
    }
    assert_eq!(fnv1a_hash_16_xor(bytes, Some(0)), fnv1a_hash_16_xor(bytes, None));
    assert_eq!(
        fnv1a_hash_16_xor(bytes, Some(bytes.len() + 1)),
        fnv1a_hash_16_xor(bytes, None)
    );
}

#[test]
fn limit_inside_input_truncates() {
    let bytes = b"hello";
    for case in [false, true] {
        assert_eq!(
            fnv1a_hash_64(bytes, Some(2), case),
            fnv1a_hash_64(&bytes[..2], None, case)
        );
        assert_eq!(
            fnv1a_hash_32(bytes, Some(2), case),
            fnv1a_hash_32(&bytes[..2], None, case)
        );
    }
    assert_eq!(fnv1a_hash_16_xor(bytes, Some(3)), fnv1a_hash_16_xor(&bytes[..3], None));
    // A limit equal to the length also consumes exactly the whole input.
    assert_eq!(
        fnv1a_hash_64(bytes, Some(bytes.len()), false),
        fnv1a_hash_64(bytes, None, false)
    );
}

#[test]
fn case_fold_equivalence_on_letters() {
    let mixed = ['A' as u8, 'B' as u8];
    let lower_first = ['a' as u8, 'B' as u8];
    let lower_both = ['a' as u8, 'b' as u8];
    let h = fnv1a_hash_64(&mixed, None, true);
    assert_eq!(fnv1a_hash_64(&lower_first, None, true), h);
    assert_eq!(fnv1a_hash_64(&lower_both, None, true), h);
    let h32 = fnv1a_hash_32(&mixed, None, true);
    assert_eq!(fnv1a_hash_32(&lower_first, None, true), h32);
    assert_eq!(fnv1a_hash_32(&lower_both, None, true), h32);
}

#[test]
fn case_fold_divergence_when_disabled() {
    let bytes = ['a' as u8, 'B' as u8];
    assert_ne!(fnv1a_hash_64(&bytes, None, false), fnv1a_hash_64(&bytes, None, true));
    assert_ne!(fnv1a_hash_32(&bytes, None, false), fnv1a_hash_32(&bytes, None, true));
}

#[test]
fn case_fold_is_a_bit_rule_not_a_letter_rule() {
    // '{' (0x7b) has bit 5 set, so case-folding clears it to '[' (0x5b),
    // even though neither byte is a letter.
    assert_eq!(
        fnv1a_hash_64(&[0x7b], None, true),
        fnv1a_hash_64(&[0x5b], None, false)
    );
    // 'A' (0x41) has bit 5 clear and is left alone.
    assert_eq!(
        fnv1a_hash_64(&[0x41], None, true),
        fnv1a_hash_64(&[0x41], None, false)
    );
}

#[test]
fn width_consistency_sixteen_bit_folds_thirty_two() {
    let bytes = b"foobar";
    for limit in [None, Some(3), Some(0), Some(100)] {
        let h32 = fnv1a_hash_32(bytes, limit, false);
        let folded = ((h32 >> 16) as u16) ^ ((h32 & 0xffff) as u16);
        assert_eq!(fnv1a_hash_16_xor(bytes, limit), folded);
    }
}

#[test]
fn text_hashes_equal_byte_hashes_of_utf8() {
    for s in ["", "a", "foobar", "Grüße, Wörld", "日本語"] {
        assert_eq!(fnv1a_hash_str_64(s), fnv1a_hash_64(s.as_bytes(), None, false));
        assert_eq!(fnv1a_hash_str_32(s), fnv1a_hash_32(s.as_bytes(), None, false));
        assert_eq!(fnv1a_hash_str_16_xor(s), fnv1a_hash_16_xor(s.as_bytes(), None));
    }
}
