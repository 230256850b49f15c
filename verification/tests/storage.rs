use zarrs::byte_range::ByteRange;
use zarrs::node::{meta_key, meta_key_v2_attributes, meta_key_v2_group, NodePath};
use zarrs::byte_range::InvalidByteRangeError;
use zarrs::storage::{
    partial_values_of, MemoryStore, ReadableStorageTraits, StorageError, StoreKey,
    StoreKeyError, WritableStorageTraits,
};
use zarrs::text::{concat3, decimal, str_eq};

fn key(text: &str) -> StoreKey {
    StoreKey::new(text).unwrap()
}

#[test]
fn store_key_has_no_slash_at_either_end() {
    assert_eq!(key("a/b").as_str(), "a/b");
    assert_eq!(key("").as_str(), "");
    assert_eq!(StoreKey::new("/a"), Err(StoreKeyError { key: "/a".to_string() }));
    assert_eq!(StoreKey::new("a/").unwrap_err().to_string(), "invalid store key a/");
    assert!(StoreKey::new("/").is_err());
    assert_eq!(key("a").clone(), key("a"));
}

#[test]
fn memory_store_set_get_erase() {
    let mut store = MemoryStore::new();
    assert_eq!(store.len(), 0);
    assert_eq!(store.get(&key("a")), Ok(None));
    store.set(&key("a"), &[1, 2, 3]).unwrap();
    store.set(&key("b"), &[4]).unwrap();
    assert_eq!(store.get(&key("a")), Ok(Some(vec![1, 2, 3])));
    store.set(&key("a"), &[9, 8]).unwrap();
    assert_eq!(store.get(&key("a")), Ok(Some(vec![9, 8])));
    assert_eq!(store.get(&key("b")), Ok(Some(vec![4])));
    assert_eq!(store.len(), 2);
    let copy = store.clone();
    store.erase(&key("a")).unwrap();
    assert_eq!(store.get(&key("a")), Ok(None));
    assert_eq!(store.get(&key("b")), Ok(Some(vec![4])));
    assert_eq!(store.len(), 1);
    store.erase(&key("a")).unwrap();
    store.erase(&key("never")).unwrap();
    assert_eq!(store.len(), 1);
    assert_eq!(copy.get(&key("a")), Ok(Some(vec![9, 8])));
    assert_eq!(copy.len(), 2);
}

#[test]
fn memory_store_partial_values_come_in_request_order() {
    let mut store = MemoryStore::new();
    store.set(&key("a"), &[10, 11, 12, 13, 14]).unwrap();
    let ranges = [ByteRange::Suffix(2), ByteRange::FromStart(0, Some(2)), ByteRange::FromStart(4, None)];
    assert_eq!(
        store.get_partial_values_key(&key("a"), &ranges),
        Ok(Some(vec![vec![13, 14], vec![10, 11], vec![14]]))
    );
    assert_eq!(store.get_partial_values_key(&key("b"), &ranges), Ok(None));
    assert!(matches!(
        store.get_partial_values_key(&key("a"), &[ByteRange::Suffix(6)]),
        Err(StorageError::InvalidByteRangeError(_))
    ));
}

#[test]
fn storage_error_texts() {
    assert_eq!(
        StorageError::InvalidMetadata(key("g/zarr.json"), "bad".to_string()).to_string(),
        "error parsing metadata for g/zarr.json: bad"
    );
    assert_eq!(StorageError::Other("why".to_string()).to_string(), "why");
    assert_eq!(
        StorageError::ReadOnly.to_string(),
        "a write operation was attempted on a read only store"
    );
    assert_eq!(
        StorageError::InvalidStoreKey(StoreKeyError { key: "/x".to_string() }).to_string(),
        "invalid store key /x"
    );
}

#[test]
fn node_path_validation() {
    for good in ["/", "/a", "/a/b", "/a b/c.d"] {
        assert!(NodePath::validate(good), "{}", good);
        assert_eq!(NodePath::new(good).unwrap().as_str(), good);
    }
    for bad in ["", "a", "a/b", "/a/", "//", "/a//b", "//a", "abc"] {
        assert!(!NodePath::validate(bad), "{}", bad);
        assert_eq!(NodePath::new(bad).unwrap_err().to_string(), format!("invalid node path {}", bad));
    }
    assert_eq!(NodePath::root().as_str(), "/");
    assert_eq!(NodePath::root().clone(), NodePath::root());
}

#[test]
fn metadata_keys_of_a_node() {
    let root = NodePath::root();
    assert_eq!(meta_key(&root).as_str(), "zarr.json");
    assert_eq!(meta_key_v2_group(&root).as_str(), ".zgroup");
    assert_eq!(meta_key_v2_attributes(&root).as_str(), ".zattrs");
    let node = NodePath::new("/a/b").unwrap();
    assert_eq!(meta_key(&node).as_str(), "a/b/zarr.json");
    assert_eq!(meta_key_v2_group(&node).as_str(), "a/b/.zgroup");
    assert_eq!(meta_key_v2_attributes(&node).as_str(), "a/b/.zattrs");
}

#[test]
fn text_helpers() {
    assert_eq!(decimal(0), "0");
    assert_eq!(decimal(9), "9");
    assert_eq!(decimal(10), "10");
    assert_eq!(decimal(1234567890), "1234567890");
    assert_eq!(decimal(u128::MAX), "340282366920938463463374607431768211455");
    assert!(str_eq("group", "group"));
    assert!(!str_eq("group", "groups"));
    assert!(!str_eq("group", "groun"));
    assert!(str_eq("", ""));
    assert_eq!(concat3("a", "", "bc"), "abc");
}

#[test]
fn partial_values_of_a_whole_object() {
    let ranges = [ByteRange::FromStart(1, Some(2)), ByteRange::Suffix(1)];
    assert_eq!(
        partial_values_of(Some(vec![5, 6, 7, 8]), &ranges),
        Ok(Some(vec![vec![6, 7], vec![8]]))
    );
    assert_eq!(partial_values_of(None, &ranges), Ok(None));
    assert_eq!(
        partial_values_of(Some(vec![5, 6]), &ranges),
        Err(StorageError::InvalidByteRangeError(InvalidByteRangeError {
            byte_range: ranges[0],
            bytes_len: 2,
        }))
    );
    assert_eq!(
        StorageError::InvalidByteRangeError(InvalidByteRangeError {
            byte_range: ranges[0],
            bytes_len: 2,
        })
        .to_string(),
        "invalid byte range 1..3 for bytes of length 2"
    );
}
