use swarm_registry::digest::{digest, DIGEST_LEN};
use swarm_registry::encode::encode_info;
use swarm_registry::errors::RegistryError;
use swarm_registry::torrent::build;

#[test]
fn build_is_idempotent() {
    let first = build(b"blobs/demo", b"hello world", 4).unwrap();
    let second = build(b"blobs/demo", b"hello world", 4).unwrap();
    assert_eq!(first.encode(), second.encode());
    assert_eq!(first.info_hash, second.info_hash);
    assert_eq!(first.piece_hashes, second.piece_hashes);
}

#[test]
fn descriptor_fields_are_derived_from_the_triple() {
    let d = build(b"blobs/demo", b"abcdefgh", 3).unwrap();
    assert_eq!(d.piece_length, 3);
    assert_eq!(d.total_length, 8);
    assert_eq!(d.path, b"blobs/demo".to_vec());
    assert_eq!(d.piece_hashes.len(), 3);
    assert_eq!(d.piece_hashes[0], digest(b"abc"));
    assert_eq!(d.piece_hashes[1], digest(b"def"));
    assert_eq!(d.piece_hashes[2], digest(b"gh"));
    assert_eq!(d.info_hash, digest(&d.encode()));
}

#[test]
fn canonical_encoding_has_fixed_field_order() {
    let d = build(b"f", b"ab", 1).unwrap();
    let mut expected: Vec<u8> = Vec::new();
    expected.extend_from_slice(b"d6:lengthi2e4:name1:f12:piece lengthi1e6:pieces40:");
    expected.extend_from_slice(&digest(b"a"));
    expected.extend_from_slice(&digest(b"b"));
    expected.push(b'e');
    assert_eq!(d.encode(), expected);
}

#[test]
fn encode_info_is_byte_stable() {
    let hashes = [digest(b"p0"), digest(b"p1")].concat();
    let a = encode_info(b"path", 9, 5, &hashes);
    let b = encode_info(b"path", 9, 5, &hashes);
    assert_eq!(a, b);
    assert_eq!(&a[..10], b"d6:lengthi");
}

#[test]
fn empty_content_builds_an_empty_descriptor() {
    let d = build(b"empty", b"", 7).unwrap();
    assert_eq!(d.total_length, 0);
    assert_eq!(d.piece_hashes.len(), 0);
    assert_eq!(d.encode(), b"d6:lengthi0e4:name5:empty12:piece lengthi7e6:pieces0:e".to_vec());
    assert_eq!(d.info_hash.len(), DIGEST_LEN);
}

#[test]
fn piece_count_is_the_ceiling_of_length_over_piece_length() {
    for piece_length in 1u32..=6 {
        let d = build(b"p", b"hello", piece_length).unwrap();
        let expected = (5 + piece_length as usize - 1) / piece_length as usize;
        assert_eq!(d.piece_hashes.len(), expected);
        assert_eq!(d.total_length, 5);
    }
}

#[test]
fn zero_piece_length_fails_the_build() {
    assert!(matches!(build(b"p", b"abc", 0), Err(RegistryError::InvalidPieceLength)));
}
