use zarrs::group::{Group, GroupCreateError, GroupMetadataOptions};
use zarrs::group_builder::GroupBuilder;
use zarrs::group_metadata::{GroupMetadata, GroupMetadataV2};
use zarrs::metadata::{AdditionalFields, MetadataConvertVersion, MetadataEraseVersion};
use zarrs::storage::{MemoryStore, ReadableStorageTraits, StoreKey, WritableStorageTraits};

const JSON_VALID1: &str = r#"{
    "zarr_format": 3,
    "node_type": "group",
    "attributes": {
        "spam": "ham",
        "eggs": 42
    }
}"#;

fn parse(json: &str) -> GroupMetadata {
    GroupMetadata::from_slice(json.as_bytes()).unwrap()
}

fn key(text: &str) -> StoreKey {
    StoreKey::new(text).unwrap()
}

#[test]
fn group_metadata1() {
    let group_metadata = parse(JSON_VALID1);
    let store = MemoryStore::new();
    Group::new_with_metadata(store, "/", group_metadata).unwrap();
}

#[test]
fn group_metadata2() {
    let group_metadata = parse(
        r#"{
            "zarr_format": 3,
            "node_type": "group",
            "attributes": {
                "spam": "ham",
                "eggs": 42
            },
            "unknown": {
                "must_understand": false
            }
        }"#,
    );
    let store = MemoryStore::new();
    Group::new_with_metadata(store, "/", group_metadata).unwrap();
}

#[test]
fn group_metadata_invalid_format() {
    let group_metadata = parse(
        r#"{
            "zarr_format": 2,
            "node_type": "group",
            "attributes": {
                "spam": "ham",
                "eggs": 42
            }
        }"#,
    );
    println!("{group_metadata:?}");
    let store = MemoryStore::new();
    let group_metadata = Group::new_with_metadata(store, "/", group_metadata);
    assert_eq!(
        group_metadata.unwrap_err().to_string(),
        "invalid zarr format 2, expected 3"
    );
}

#[test]
fn group_metadata_invalid_type() {
    let group_metadata = parse(
        r#"{
            "zarr_format": 3,
            "node_type": "array",
            "attributes": {
                "spam": "ham",
                "eggs": 42
            }
        }"#,
    );
    println!("{group_metadata:?}");
    let store = MemoryStore::new();
    let group_metadata = Group::new_with_metadata(store, "/", group_metadata);
    assert_eq!(
        group_metadata.unwrap_err().to_string(),
        "invalid zarr format array, expected group"
    );
}

#[test]
fn group_metadata_invalid_additional_field() {
    let group_metadata = parse(
        r#"{
                "zarr_format": 3,
                "node_type": "group",
                "attributes": {
                  "spam": "ham",
                  "eggs": 42
                },
                "unknown": "fail"
            }"#,
    );
    println!("{group_metadata:?}");
    let store = MemoryStore::new();
    let group_metadata = Group::new_with_metadata(store, "/", group_metadata);
    assert_eq!(
        group_metadata.unwrap_err().to_string(),
        r#"unsupported additional field unknown with value "fail""#
    );
}

#[test]
fn group_metadata_write_read() {
    let store = MemoryStore::new();
    let group_path = "/group";
    let mut group = GroupBuilder::new().build(store, group_path).unwrap();
    group.store_metadata().unwrap();
    let metadata = Group::new(group.storage().clone(), group_path)
        .unwrap()
        .metadata();
    assert_eq!(metadata, group.metadata());
    assert_eq!(
        group.metadata().to_string(),
        r#"{"node_type":"group","zarr_format":3}"#
    );
    assert_eq!(
        group.to_string(),
        r#"group at /group with metadata {"node_type":"group","zarr_format":3}"#
    );
}

#[test]
fn group_metadata_invalid_path() {
    let group_metadata = parse(JSON_VALID1);
    let store = MemoryStore::new();
    assert_eq!(
        Group::new_with_metadata(store, "abc", group_metadata)
            .unwrap_err()
            .to_string(),
        "invalid node path abc"
    );
}

#[test]
fn group_invalid_path() {
    let store = MemoryStore::new();
    assert_eq!(
        Group::new(store, "abc").unwrap_err().to_string(),
        "invalid node path abc"
    );
}

#[test]
fn group_invalid_metadata() {
    let mut store = MemoryStore::new();
    store.set(&key("zarr.json"), &[0]).unwrap();
    assert_eq!(
        Group::new(store, "/").unwrap_err().to_string(),
        "error parsing metadata for zarr.json: expected value at line 1 column 1"
    );
}

#[test]
fn group_default() {
    let store = MemoryStore::new();
    let group_path = "/group";
    let group = Group::new(store, group_path).unwrap();
    assert_eq!(group.attributes(), &serde_json::Map::default());
    assert_eq!(group.additional_fields(), &AdditionalFields::default());
}

#[test]
fn group_new_reports_document_that_is_no_metadata() {
    let mut store = MemoryStore::new();
    store.set(&key("a/zarr.json"), b"[1, 2]").unwrap();
    assert_eq!(
        Group::new(store.clone(), "/a").unwrap_err().to_string(),
        "error parsing metadata for a/zarr.json: data did not match any variant of untagged enum GroupMetadata"
    );
    store.set(&key("a/zarr.json"), br#"{"node_type": "group"}"#).unwrap();
    assert!(matches!(
        Group::new(store, "/a"),
        Err(GroupCreateError::StorageError(_))
    ));
}

#[test]
fn group_error_precedence_is_path_then_format_then_type_then_fields() {
    let bad_all = parse(r#"{"zarr_format": 2, "node_type": "array", "x": 1}"#);
    assert!(matches!(
        Group::new_with_metadata(MemoryStore::new(), "a//b", bad_all.clone()),
        Err(GroupCreateError::NodePathError(_))
    ));
    assert_eq!(
        Group::new_with_metadata(MemoryStore::new(), "/a", bad_all).unwrap_err(),
        GroupCreateError::InvalidZarrFormat(2)
    );
    let bad_type = parse(r#"{"zarr_format": 3, "node_type": "array", "x": 1}"#);
    assert_eq!(
        Group::new_with_metadata(MemoryStore::new(), "/a", bad_type).unwrap_err(),
        GroupCreateError::InvalidNodeType("array".to_string())
    );
    let bad_field = parse(r#"{"zarr_format": 3, "node_type": "group", "x": 1}"#);
    let error = Group::new_with_metadata(MemoryStore::new(), "/a", bad_field).unwrap_err();
    assert_eq!(error.to_string(), "unsupported additional field x with value 1");
}

#[test]
fn group_v2_metadata_is_not_validated() {
    let metadata = parse(r#"{"zarr_format": 2, "x": 1}"#);
    assert!(matches!(metadata, GroupMetadata::V2(_)));
    let group = Group::new_with_metadata(MemoryStore::new(), "/g", metadata).unwrap();
    assert_eq!(group.path().as_str(), "/g");
}

#[test]
fn group_store_metadata_writes_the_document_under_the_key() {
    let mut group = GroupBuilder::new().build(MemoryStore::new(), "/a/b").unwrap();
    group.store_metadata().unwrap();
    let store = group.into_storage();
    assert_eq!(store.len(), 1);
    let bytes = store.get(&key("a/b/zarr.json")).unwrap().unwrap();
    assert_eq!(
        String::from_utf8(bytes).unwrap(),
        "{\n  \"node_type\": \"group\",\n  \"zarr_format\": 3\n}"
    );
}

#[test]
fn group_store_metadata_opt_converts_v2_only_when_asked() {
    let metadata = parse(r#"{"zarr_format": 2, "attributes": {"a": 1}}"#);
    let mut group = Group::new_with_metadata(MemoryStore::new(), "/g", metadata).unwrap();
    group.store_metadata_opt(&GroupMetadataOptions::default()).unwrap();
    assert!(group.storage().get(&key("g/zarr.json")).unwrap().is_none());
    assert_eq!(
        String::from_utf8(group.storage().get(&key("g/.zattrs")).unwrap().unwrap()).unwrap(),
        "{\n  \"a\": 1\n}"
    );
    assert_eq!(
        String::from_utf8(group.storage().get(&key("g/.zgroup")).unwrap().unwrap()).unwrap(),
        "{\n  \"zarr_format\": 2\n}"
    );
    let mut options = GroupMetadataOptions::default();
    options.set_metadata_store_version(MetadataConvertVersion::V3);
    group.store_metadata_opt(&options).unwrap();
    let stored = group.storage().get(&key("g/zarr.json")).unwrap().unwrap();
    let read = GroupMetadata::from_slice(&stored).unwrap();
    assert_eq!(
        read.to_string(),
        r#"{"attributes":{"a":1},"node_type":"group","zarr_format":3}"#
    );
}

#[test]
fn group_erase_metadata_erases_the_version_of_the_group() {
    let mut store = MemoryStore::new();
    for name in ["g/zarr.json", "g/.zgroup", "g/.zattrs", "other/zarr.json"] {
        store.set(&key(name), b"{}").unwrap();
    }
    let mut group = GroupBuilder::new().build(store.clone(), "/g").unwrap();
    group.erase_metadata().unwrap();
    assert!(group.storage().get(&key("g/zarr.json")).unwrap().is_none());
    assert!(group.storage().get(&key("g/.zgroup")).unwrap().is_some());
    assert_eq!(group.storage().len(), 3);
    group.erase_metadata().unwrap();
    assert_eq!(group.storage().len(), 3);

    let v2 = GroupMetadata::V2(GroupMetadataV2 {
        zarr_format: 2,
        attributes: serde_json::Map::new(),
        additional_fields: AdditionalFields::default(),
    });
    let mut group = Group::new_with_metadata(store.clone(), "/g", v2).unwrap();
    group.erase_metadata().unwrap();
    assert!(group.storage().get(&key("g/zarr.json")).unwrap().is_some());
    assert!(group.storage().get(&key("g/.zgroup")).unwrap().is_none());
    assert!(group.storage().get(&key("g/.zattrs")).unwrap().is_none());
}

#[test]
fn group_erase_metadata_opt_follows_the_option() {
    let mut store = MemoryStore::new();
    for name in ["g/zarr.json", "g/.zgroup", "g/.zattrs", "other/zarr.json"] {
        store.set(&key(name), b"{}").unwrap();
    }
    let mut group = GroupBuilder::new().build(store.clone(), "/g").unwrap();
    group.erase_metadata_opt(&MetadataEraseVersion::V2).unwrap();
    assert!(group.storage().get(&key("g/zarr.json")).unwrap().is_some());
    assert_eq!(group.storage().len(), 2);
    let mut group = GroupBuilder::new().build(store.clone(), "/g").unwrap();
    group.erase_metadata_opt(&MetadataEraseVersion::V3).unwrap();
    assert!(group.storage().get(&key("g/zarr.json")).unwrap().is_none());
    assert_eq!(group.storage().len(), 3);
    let mut group = GroupBuilder::new().build(store, "/g").unwrap();
    group.erase_metadata_opt(&MetadataEraseVersion::All).unwrap();
    assert_eq!(group.storage().len(), 1);
    assert!(group.storage().get(&key("other/zarr.json")).unwrap().is_some());
}

#[test]
fn group_attributes_and_additional_fields_can_be_changed_in_place() {
    let mut group = GroupBuilder::new().build(MemoryStore::new(), "/g").unwrap();
    group
        .attributes_mut()
        .insert("spam".to_string(), serde_json::Value::from("ham"));
    let mut field = serde_json::Map::new();
    field.insert("must_understand".to_string(), serde_json::Value::from(false));
    let mut fields = serde_json::Map::new();
    fields.insert("extra".to_string(), serde_json::Value::Object(field));
    *group.additional_fields_mut() = AdditionalFields::from(fields.clone());
    assert_eq!(group.additional_fields().as_map(), &fields);
    assert_eq!(
        group.metadata().to_string(),
        r#"{"attributes":{"spam":"ham"},"extra":{"must_understand":false},"node_type":"group","zarr_format":3}"#
    );
}

#[test]
fn group_clone_has_the_path_and_the_metadata() {
    let group = Group::new_with_metadata(MemoryStore::new(), "/g", parse(JSON_VALID1)).unwrap();
    let copy = group.clone();
    assert_eq!(copy.path(), group.path());
    assert_eq!(copy.metadata(), group.metadata());
    assert_eq!(copy.attributes().len(), 2);
}

#[test]
fn group_metadata_documents_that_are_refused() {
    let mismatch = "data did not match any variant of untagged enum GroupMetadata";
    for text in [
        "[]",
        "3",
        r#"{"node_type": "group"}"#,
        r#"{"zarr_format": -3, "node_type": "group"}"#,
        r#"{"zarr_format": 3.5, "node_type": "group"}"#,
        r#"{"zarr_format": "3", "node_type": "group"}"#,
        r#"{"zarr_format": 3, "node_type": 7}"#,
        r#"{"zarr_format": 3, "node_type": "group", "attributes": []}"#,
    ] {
        assert_eq!(GroupMetadata::from_slice(text.as_bytes()), Err(mismatch.to_string()), "{}", text);
    }
    assert_eq!(
        GroupMetadata::from_slice(b"{"),
        Err("EOF while parsing an object at line 1 column 1".to_string())
    );
    let value = serde_json::Value::from(3u64);
    assert_eq!(GroupMetadata::from_json(value), Err(mismatch.to_string()));
}

#[test]
fn group_metadata_reads_what_it_writes() {
    let metadata = parse(
        r#"{"zarr_format": 3, "node_type": "group", "attributes": {"b": [1, 2.5, null]}, "x": {"must_understand": false}}"#,
    );
    let text = metadata.to_string();
    assert_eq!(
        text,
        r#"{"attributes":{"b":[1,2.5,null]},"node_type":"group","x":{"must_understand":false},"zarr_format":3}"#
    );
    assert_eq!(parse(&text), metadata);
    assert_eq!(GroupMetadata::from_json(metadata.to_json()), Ok(metadata.clone()));
    let empty_attributes = parse(r#"{"zarr_format": 3, "node_type": "group", "attributes": {}}"#);
    assert_eq!(empty_attributes.to_string(), r#"{"node_type":"group","zarr_format":3}"#);
}
