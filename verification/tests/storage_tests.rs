use swarm_registry::storage::{slices_equal, LocalFilesystem, Storage};

#[test]
fn a_new_store_is_empty() {
    let store = LocalFilesystem::new(String::from("./data"));
    assert!(!store.contains(b"anything"));
    assert!(store.load(b"anything").is_err());
}

#[test]
fn save_then_load_returns_the_bytes() {
    let mut store = LocalFilesystem::new(String::from("./data"));
    store.save(b"blobs/k", b"value").unwrap();
    assert!(store.contains(b"blobs/k"));
    assert_eq!(store.load(b"blobs/k").unwrap(), b"value".to_vec());
}

#[test]
fn save_overwrites_unconditionally() {
    let mut store = LocalFilesystem::new(String::from("./data"));
    store.save(b"k", b"first").unwrap();
    store.save(b"k", b"second").unwrap();
    assert_eq!(store.load(b"k").unwrap(), b"second".to_vec());
}

#[test]
fn saving_identical_content_is_idempotent() {
    let mut store = LocalFilesystem::new(String::from("./data"));
    store.save(b"k", b"same").unwrap();
    store.save(b"k", b"same").unwrap();
    assert_eq!(store.load(b"k").unwrap(), b"same".to_vec());
}

#[test]
fn delete_unbinds_a_key() {
    let mut store = LocalFilesystem::new(String::from("./data"));
    store.save(b"k", b"v").unwrap();
    store.save(b"other", b"w").unwrap();
    store.delete(b"k").unwrap();
    assert!(!store.contains(b"k"));
    assert!(store.contains(b"other"));
    store.delete(b"never there").unwrap();
}

#[test]
fn slice_equality_compares_bytes() {
    assert!(slices_equal(b"abc", b"abc"));
    assert!(!slices_equal(b"abc", b"abd"));
    assert!(!slices_equal(b"abc", b"ab"));
    assert!(slices_equal(b"", b""));
}
