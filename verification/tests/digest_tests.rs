use swarm_registry::digest::{digest, digest_hex, hex_encode, is_digest_ref, DIGEST_LEN};

#[test]
fn digest_is_deterministic_across_calls() {
    let input = b"some artifact bytes";
    let first = digest(input);
    let second = digest(input);
    assert_eq!(first, second);
    assert_eq!(digest_hex(input), digest_hex(input));
}

#[test]
fn digest_has_fixed_length() {
    assert_eq!(digest(b"").len(), DIGEST_LEN);
    assert_eq!(digest(b"x").len(), DIGEST_LEN);
    assert_eq!(digest_hex(b"anything").len(), 2 * DIGEST_LEN);
}

#[test]
fn digest_matches_known_vectors() {
    // The standard SHA-1 test vectors pin the hash actually computed.
    assert_eq!(
        String::from_utf8(digest_hex(b"abc")).unwrap(),
        "a9993e364706816aba3e25717850c26c9cd0d89d"
    );
    assert_eq!(
        String::from_utf8(digest_hex(b"")).unwrap(),
        "da39a3ee5e6b4b0d3255bfef95601890afd80709"
    );
}

#[test]
fn distinct_content_gets_distinct_digests() {
    assert_ne!(digest(b"abc"), digest(b"abd"));
}

#[test]
fn hex_encodes_two_digits_per_byte() {
    assert_eq!(hex_encode(&[]), b"".to_vec());
    assert_eq!(hex_encode(&[0x00, 0xff, 0x1a]), b"00ff1a".to_vec());
}

#[test]
fn digest_shaped_references_are_recognized() {
    let hex = digest_hex(b"abc");
    assert!(is_digest_ref(&hex));
    assert!(!is_digest_ref(b"latest"));
    assert!(!is_digest_ref(b"A9993E364706816ABA3E25717850C26C9CD0D89D"));
    assert!(!is_digest_ref(b"a9993e364706816aba3e25717850c26c9cd0d89"));
}
