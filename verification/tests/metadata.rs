use zarrs::metadata::{
    AdditionalFields, MetadataConvertVersion, MetadataEraseVersion, MetadataRetrieveVersion,
};

#[test]
fn additional_fields_valid() {
    let mut additional_fields_map = serde_json::Map::new();
    let mut additional_field = serde_json::Map::new();
    additional_field.insert("must_understand".to_string(), false.into());
    additional_fields_map.insert("key".to_string(), additional_field.into());
    let additional_fields: AdditionalFields = additional_fields_map.clone().into();
    assert!(additional_fields.validate().is_ok());
    assert_eq!(additional_fields.as_map(), &additional_fields_map);
}

#[test]
fn additional_fields_invalid1() {
    let mut additional_fields = serde_json::Map::new();
    let mut additional_field = serde_json::Map::new();
    additional_field.insert("must_understand".to_string(), true.into());
    additional_fields.insert("key".to_string(), additional_field.clone().into());
    let additional_fields: AdditionalFields = additional_fields.into();
    let validate = additional_fields.validate();
    assert!(validate.is_err());
    let err = validate.unwrap_err();
    assert_eq!(err.name(), "key");
    assert_eq!(err.value(), &serde_json::Value::Object(additional_field));
}

#[test]
fn additional_fields_invalid2() {
    let mut additional_fields = serde_json::Map::new();
    let additional_field = serde_json::Map::new();
    additional_fields.insert("key".to_string(), additional_field.into());
    let additional_fields: AdditionalFields = additional_fields.into();
    assert!(additional_fields.validate().is_err());
}

#[test]
fn additional_fields_invalid3() {
    let mut additional_fields = serde_json::Map::new();
    let mut additional_field = serde_json::Map::new();
    additional_field.insert("must_understand".to_string(), 0.into());
    additional_fields.insert("key".to_string(), additional_field.into());
    let additional_fields: AdditionalFields = additional_fields.into();
    assert!(additional_fields.validate().is_err());
}

#[test]
fn additional_fields_empty_are_valid() {
    assert!(AdditionalFields::default().validate().is_ok());
    assert!(AdditionalFields::default().clone().as_map().is_empty());
}

#[test]
fn metadata_versions_default_to_the_version_of_the_metadata() {
    assert_eq!(MetadataConvertVersion::default(), MetadataConvertVersion::Default);
    assert_eq!(MetadataEraseVersion::default(), MetadataEraseVersion::Default);
    assert_ne!(MetadataRetrieveVersion::V3, MetadataRetrieveVersion::V2);
}
