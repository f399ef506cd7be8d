use swarm_registry::digest::digest;
use swarm_registry::errors::RegistryError;
use swarm_registry::pieces::segment;

#[test]
fn even_split_into_two_pieces() {
    let pieces = segment(b"abcdefgh", 4).unwrap();
    assert_eq!(pieces.len(), 2);
    assert_eq!(pieces[0].index, 0);
    assert_eq!(pieces[0].offset, 0);
    assert_eq!(pieces[0].length, 4);
    assert_eq!(pieces[0].digest, digest(b"abcd"));
    assert_eq!(pieces[1].index, 1);
    assert_eq!(pieces[1].offset, 4);
    assert_eq!(pieces[1].length, 4);
    assert_eq!(pieces[1].digest, digest(b"efgh"));
    assert_eq!(pieces[0].length + pieces[1].length, 8);
}

#[test]
fn last_piece_may_be_shorter() {
    let pieces = segment(b"abcdefg", 4).unwrap();
    assert_eq!(pieces.len(), 2);
    assert_eq!(pieces[0].length, 4);
    assert_eq!(pieces[1].length, 3);
    assert_eq!(pieces[1].offset, 4);
    assert_eq!(pieces[1].digest, digest(b"efg"));
    assert_eq!(pieces[0].length + pieces[1].length, 7);
}

#[test]
fn empty_content_yields_no_pieces() {
    let pieces = segment(b"", 4).unwrap();
    assert_eq!(pieces.len(), 0);
}

#[test]
fn zero_piece_length_is_rejected() {
    assert!(matches!(segment(b"abc", 0), Err(RegistryError::InvalidPieceLength)));
}

#[test]
fn concatenating_piece_ranges_reproduces_content() {
    let content: Vec<u8> = (0u8..=250).collect();
    for piece_length in [1u32, 3, 7, 100, 250, 251, 1000] {
        let pieces = segment(&content, piece_length).unwrap();
        let mut rebuilt: Vec<u8> = Vec::new();
        for p in &pieces {
            rebuilt.extend_from_slice(&content[p.offset..p.offset + p.length]);
            assert_eq!(p.digest, digest(&content[p.offset..p.offset + p.length]));
        }
        assert_eq!(rebuilt, content);
    }
}
