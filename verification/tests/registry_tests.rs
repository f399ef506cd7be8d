use swarm_registry::digest::digest_hex;
use swarm_registry::errors::RegistryError;
use swarm_registry::registry::Registry;
use swarm_registry::storage::LocalFilesystem;

const PIECE_LENGTH: u32 = 4;

fn fresh_registry() -> Registry<LocalFilesystem> {
    let store = LocalFilesystem::new(String::from("./data"));
    Registry::new(store, PIECE_LENGTH).unwrap()
}

#[test]
fn zero_piece_length_registry_is_rejected() {
    let store = LocalFilesystem::new(String::from("./data"));
    assert!(matches!(
        Registry::new(store, 0),
        Err(RegistryError::InvalidPieceLength)
    ));
}

#[test]
fn put_blob_round_trips() {
    let mut reg = fresh_registry();
    let payload = b"hello";
    let hex = digest_hex(payload);
    assert!(reg.put_blob(&hex, payload).is_ok());
    let loaded = reg.get_blob(&hex).unwrap();
    assert_eq!(loaded, payload.to_vec());
}

#[test]
fn put_blob_rejects_a_wrong_digest() {
    let mut reg = fresh_registry();
    let wrong = digest_hex(b"something else");
    assert!(matches!(
        reg.put_blob(&wrong, b"hello"),
        Err(RegistryError::DigestMismatch)
    ));
    assert!(matches!(
        reg.get_blob(&wrong),
        Err(RegistryError::NotFound)
    ));
}

#[test]
fn get_blob_of_an_unknown_digest_is_not_found() {
    let reg = fresh_registry();
    let never_written = digest_hex(b"never written");
    assert!(matches!(
        reg.get_blob(&never_written),
        Err(RegistryError::NotFound)
    ));
}

#[test]
fn put_manifest_round_trips_through_a_tag() {
    let mut reg = fresh_registry();
    let body = b"{\"schemaVersion\":2,\"layers\":[]}";
    let (hex, info_hash) = reg.put_manifest(b"library/app", b"latest", body).unwrap();
    assert_eq!(hex, digest_hex(body));
    assert_eq!(info_hash.len(), 20);
    let by_tag = reg.get_manifest(b"library/app", b"latest").unwrap();
    assert_eq!(by_tag, body.to_vec());
    let by_digest = reg.get_manifest(b"library/app", &hex).unwrap();
    assert_eq!(by_digest, body.to_vec());
}

#[test]
fn put_manifest_accepts_its_own_digest_as_reference() {
    let mut reg = fresh_registry();
    let body = b"{\"schemaVersion\":2}";
    let hex = digest_hex(body);
    let (returned, _) = reg.put_manifest(b"library/app", &hex, body).unwrap();
    assert_eq!(returned, hex);
}

#[test]
fn put_manifest_rejects_a_mismatched_digest_reference() {
    let mut reg = fresh_registry();
    let body = b"{\"schemaVersion\":2}";
    let other = digest_hex(b"different bytes");
    assert!(matches!(
        reg.put_manifest(b"library/app", &other, body),
        Err(RegistryError::DigestMismatch)
    ));
    // Nothing was persisted: the reference still resolves to nothing.
    assert!(matches!(
        reg.get_manifest(b"library/app", &other),
        Err(RegistryError::NotFound)
    ));
}

#[test]
fn put_manifest_rejects_a_malformed_body() {
    let mut reg = fresh_registry();
    assert!(matches!(
        reg.put_manifest(b"library/app", b"latest", b"{not json"),
        Err(RegistryError::ParseError)
    ));
    assert!(matches!(
        reg.get_manifest(b"library/app", b"latest"),
        Err(RegistryError::NotFound)
    ));
}

#[test]
fn a_tag_is_mutable_and_rebindable() {
    let mut reg = fresh_registry();
    let first = b"{\"schemaVersion\":2,\"layers\":[]}";
    let second = b"{\"schemaVersion\":2,\"layers\":[{\"size\":1}]}";
    reg.put_manifest(b"r", b"latest", first).unwrap();
    reg.put_manifest(b"r", b"latest", second).unwrap();
    assert_eq!(reg.get_manifest(b"r", b"latest").unwrap(), second.to_vec());
    // The first manifest stays reachable under its own digest.
    let first_hex = digest_hex(first);
    assert_eq!(reg.get_manifest(b"r", &first_hex).unwrap(), first.to_vec());
}

#[test]
fn repository_creation_conflicts_on_a_duplicate_name() {
    let mut reg = fresh_registry();
    let record = b"{\"id\":\"0\",\"name\":\"x\",\"tags\":[]}";
    assert!(reg.create_repository(b"x", record).is_ok());
    let replacement = b"{\"id\":\"1\",\"name\":\"x\",\"tags\":[]}";
    assert!(matches!(
        reg.create_repository(b"x", replacement),
        Err(RegistryError::Conflict)
    ));
    // The original record is unchanged.
    assert_eq!(reg.get_repository(b"x").unwrap(), record.to_vec());
}

#[test]
fn get_repository_of_an_unknown_name_is_not_found() {
    let reg = fresh_registry();
    assert!(matches!(
        reg.get_repository(b"missing"),
        Err(RegistryError::NotFound)
    ));
}
