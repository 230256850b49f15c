//! A builder of groups.

use crate::group::{spec_group_made, Group, GroupCreateError};
use crate::group_metadata::{GroupMetadata, GroupMetadataV3, GroupMetadataV3View, GroupMetadataView};
use crate::json::{json_clone_object, json_members, json_object_new, spec_no_members, JsonModel};
use crate::metadata::AdditionalFields;
use vstd::prelude::*;

verus! {

/// A builder of groups with V3 metadata.
#[derive(Debug)]
pub struct GroupBuilder {
    attributes: serde_json::Map<String, serde_json::Value>,
    additional_fields: AdditionalFields,
}

impl GroupBuilder {
    /// The attributes that the built group will have.
    pub closed spec fn spec_attributes(&self) -> Map<Seq<char>, JsonModel> {
        json_members(self.attributes)
    }

    /// The additional fields that the built group will have.
    pub closed spec fn spec_additional_fields(&self) -> Map<Seq<char>, JsonModel> {
        self.additional_fields@
    }

    /// The metadata that the built group will have.
    pub open spec fn spec_metadata(&self) -> GroupMetadataView {
        GroupMetadataView::V3(
            GroupMetadataV3View {
                zarr_format: 3,
                node_type: "group"@,
                attributes: self.spec_attributes(),
                additional_fields: self.spec_additional_fields(),
            },
        )
    }

    /// A builder of a group without attributes and additional fields.
    pub fn new() -> (builder: Self)
        ensures
            builder.spec_attributes() == spec_no_members(),
            builder.spec_additional_fields() == spec_no_members(),
    {
        GroupBuilder { attributes: json_object_new(), additional_fields: AdditionalFields::default() }
    }

    /// Sets the attributes.
    pub fn attributes(&mut self, attributes: serde_json::Map<String, serde_json::Value>)
        ensures
            final(self).spec_attributes() == json_members(attributes),
            final(self).spec_additional_fields() == old(self).spec_additional_fields(),
    {
        self.attributes = attributes;
    }

    /// Sets the additional fields.
    pub fn additional_fields(&mut self, additional_fields: AdditionalFields)
        ensures
            final(self).spec_additional_fields() == additional_fields@,
            final(self).spec_attributes() == old(self).spec_attributes(),
    {
        self.additional_fields = additional_fields;
    }

    /// Builds the group in `storage` at `path`. Nothing is written to the
    /// store.
    pub fn build<TStorage>(&self, storage: TStorage, path: &str) -> (built: Result<
        Group<TStorage>,
        GroupCreateError,
    >)
        ensures
            spec_group_made(storage, path@, self.spec_metadata(), built),
    {
        let metadata = GroupMetadataV3::new(
            json_clone_object(&self.attributes),
            self.additional_fields.clone(),
        );
        Group::new_with_metadata(storage, path, GroupMetadata::V3(metadata))
    }
}

} // verus!
