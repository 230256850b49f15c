//! Metadata documents of groups, in both versions of the layout.

use crate::json::{
    json_as_str, json_as_u64, json_clone_object, json_error_message, json_from_object,
    json_from_slice, json_from_string, json_from_u64, json_into_object, json_members, json_model,
    json_object_insert, json_object_is_empty, json_object_new, json_object_remove, json_parsed,
    json_text, json_to_string, spec_no_members, JsonModel, JsonNumber,
};
use crate::metadata::AdditionalFields;
use crate::text::str_eq;
use vstd::prelude::*;
use vstd::string::*;

verus! {

/// What V3 group metadata holds.
pub struct GroupMetadataV3View {
    /// The version of the layout, which must be 3.
    pub zarr_format: usize,
    /// The kind of node, which must be `group`.
    pub node_type: Seq<char>,
    /// The attributes.
    pub attributes: Map<Seq<char>, JsonModel>,
    /// The members that the library does not know.
    pub additional_fields: Map<Seq<char>, JsonModel>,
}

/// What V2 group metadata holds.
pub struct GroupMetadataV2View {
    /// The version of the layout.
    pub zarr_format: usize,
    /// The attributes.
    pub attributes: Map<Seq<char>, JsonModel>,
    /// The members that the library does not know.
    pub additional_fields: Map<Seq<char>, JsonModel>,
}

/// What group metadata holds.
pub enum GroupMetadataView {
    /// V3.
    V3(GroupMetadataV3View),
    /// V2.
    V2(GroupMetadataV2View),
}

/// V3 group metadata.
#[derive(Debug, PartialEq, Eq)]
pub struct GroupMetadataV3 {
    /// The version of the layout, which must be 3.
    pub zarr_format: usize,
    /// The kind of node, which must be `group`.
    pub node_type: String,
    /// The attributes.
    pub attributes: serde_json::Map<String, serde_json::Value>,
    /// The members that the library does not know.
    pub additional_fields: AdditionalFields,
}

/// V2 group metadata.
#[derive(Debug, PartialEq, Eq)]
pub struct GroupMetadataV2 {
    /// The version of the layout.
    pub zarr_format: usize,
    /// The attributes, which the older layout keeps in a file of their own.
    pub attributes: serde_json::Map<String, serde_json::Value>,
    /// The members that the library does not know.
    pub additional_fields: AdditionalFields,
}

/// Group metadata.
#[derive(Debug, PartialEq, Eq)]
pub enum GroupMetadata {
    /// V3.
    V3(GroupMetadataV3),
    /// V2.
    V2(GroupMetadataV2),
}

impl View for GroupMetadataV3 {
    type V = GroupMetadataV3View;

    open spec fn view(&self) -> GroupMetadataV3View {
        GroupMetadataV3View {
            zarr_format: self.zarr_format,
            node_type: self.node_type@,
            attributes: json_members(self.attributes),
            additional_fields: self.additional_fields@,
        }
    }
}

impl View for GroupMetadataV2 {
    type V = GroupMetadataV2View;

    open spec fn view(&self) -> GroupMetadataV2View {
        GroupMetadataV2View {
            zarr_format: self.zarr_format,
            attributes: json_members(self.attributes),
            additional_fields: self.additional_fields@,
        }
    }
}

impl View for GroupMetadata {
    type V = GroupMetadataView;

    open spec fn view(&self) -> GroupMetadataView {
        match self {
            GroupMetadata::V3(m) => GroupMetadataView::V3(m@),
            GroupMetadata::V2(m) => GroupMetadataView::V2(m@),
        }
    }
}

/// The members of the document of V3 metadata: the additional fields, the
/// version, the kind of node, and the attributes unless there are none.
pub open spec fn spec_document_v3(m: GroupMetadataV3View) -> Map<Seq<char>, JsonModel> {
    let named = m.additional_fields.insert(
        "zarr_format"@,
        JsonModel::Number(JsonNumber::PosInt(m.zarr_format as u64)),
    ).insert("node_type"@, JsonModel::Text(m.node_type));
    if m.attributes == spec_no_members() {
        named
    } else {
        named.insert("attributes"@, JsonModel::Object(m.attributes))
    }
}

/// The members of the document of V2 metadata: the additional fields, the
/// version, and the attributes unless there are none.
pub open spec fn spec_document_v2(m: GroupMetadataV2View) -> Map<Seq<char>, JsonModel> {
    let named = m.additional_fields.insert(
        "zarr_format"@,
        JsonModel::Number(JsonNumber::PosInt(m.zarr_format as u64)),
    );
    if m.attributes == spec_no_members() {
        named
    } else {
        named.insert("attributes"@, JsonModel::Object(m.attributes))
    }
}

/// The members of the document of group metadata.
pub open spec fn spec_document(m: GroupMetadataView) -> Map<Seq<char>, JsonModel> {
    match m {
        GroupMetadataView::V3(m) => spec_document_v3(m),
        GroupMetadataView::V2(m) => spec_document_v2(m),
    }
}

/// Whether an object with the members `members` is the document of group
/// metadata: its version is an integer that is not negative and fits the
/// machine, its kind of node, where it has one, is a string, and its
/// attributes, where it has any, are an object.
pub open spec fn spec_is_group_document(members: Map<Seq<char>, JsonModel>) -> bool {
    &&& members.contains_key("zarr_format"@)
    &&& members["zarr_format"@] matches JsonModel::Number(JsonNumber::PosInt(n))
    &&& n <= usize::MAX
    &&& members.contains_key("node_type"@) ==> members["node_type"@] is Text
    &&& members.contains_key("attributes"@) ==> members["attributes"@] is Object
}

/// The attributes of a document: its member `attributes`, or none.
pub open spec fn spec_attributes_of(members: Map<Seq<char>, JsonModel>) -> Map<Seq<char>, JsonModel> {
    if members.contains_key("attributes"@) {
        members["attributes"@]->Object_0
    } else {
        spec_no_members()
    }
}

/// The members of a document that the library does not know.
pub open spec fn spec_additional_of(members: Map<Seq<char>, JsonModel>) -> Map<Seq<char>, JsonModel> {
    members.remove("zarr_format"@).remove("node_type"@).remove("attributes"@)
}

/// The metadata that a document holds: V3 where it names a kind of node, V2
/// where it does not.
pub open spec fn spec_metadata_of(members: Map<Seq<char>, JsonModel>) -> GroupMetadataView
    recommends
        spec_is_group_document(members),
{
    let zarr_format = members["zarr_format"@]->Number_0->PosInt_0 as usize;
    if members.contains_key("node_type"@) {
        GroupMetadataView::V3(
            GroupMetadataV3View {
                zarr_format: zarr_format,
                node_type: members["node_type"@]->Text_0,
                attributes: spec_attributes_of(members),
                additional_fields: spec_additional_of(members),
            },
        )
    } else {
        GroupMetadataView::V2(
            GroupMetadataV2View {
                zarr_format: zarr_format,
                attributes: spec_attributes_of(members),
                additional_fields: spec_additional_of(members),
            },
        )
    }
}

/// What reading group metadata out of a JSON value comes to: the metadata
/// that the document holds, or, for a value that is no such document, the
/// message that says so.
pub open spec fn spec_metadata_read(model: JsonModel, read: Result<GroupMetadata, String>) -> bool {
    match model {
        JsonModel::Object(members) => if spec_is_group_document(members) {
            read matches Ok(m) && m@ == spec_metadata_of(members)
        } else {
            read matches Err(e) && e@ == spec_mismatch_message()
        },
        _ => read matches Err(e) && e@ == spec_mismatch_message(),
    }
}

/// The message for a JSON value that is not the document of group metadata.
pub open spec fn spec_mismatch_message() -> Seq<char> {
    "data did not match any variant of untagged enum GroupMetadata"@
}

/// The names of the members that the library knows differ from each other.
pub proof fn lemma_member_names_differ()
    ensures
        "zarr_format"@ != "node_type"@,
        "zarr_format"@ != "attributes"@,
        "node_type"@ != "attributes"@,
{
    reveal_strlit("zarr_format");
    reveal_strlit("node_type");
    reveal_strlit("attributes");
    assert("zarr_format"@.len() == 11);
    assert("node_type"@.len() == 9);
    assert("attributes"@.len() == 10);
}

impl Clone for GroupMetadataV3 {
    fn clone(&self) -> (copy: Self)
        ensures
            copy@ == self@,
    {
        GroupMetadataV3 {
            zarr_format: self.zarr_format,
            node_type: self.node_type.clone(),
            attributes: json_clone_object(&self.attributes),
            additional_fields: self.additional_fields.clone(),
        }
    }
}

impl Clone for GroupMetadataV2 {
    fn clone(&self) -> (copy: Self)
        ensures
            copy@ == self@,
    {
        GroupMetadataV2 {
            zarr_format: self.zarr_format,
            attributes: json_clone_object(&self.attributes),
            additional_fields: self.additional_fields.clone(),
        }
    }
}

impl Clone for GroupMetadata {
    fn clone(&self) -> (copy: Self)
        ensures
            copy@ == self@,
    {
        match self {
            GroupMetadata::V3(m) => GroupMetadata::V3(m.clone()),
            GroupMetadata::V2(m) => GroupMetadata::V2(m.clone()),
        }
    }
}

impl Default for GroupMetadataV3 {
    fn default() -> (made: Self)
        ensures
            made@.zarr_format == 3,
            made@.node_type == "group"@,
            made@.attributes == spec_no_members(),
            made@.additional_fields == spec_no_members(),
    {
        GroupMetadataV3::new(json_object_new(), AdditionalFields::default())
    }
}

impl GroupMetadataV3 {
    /// V3 group metadata with these attributes and additional fields.
    pub fn new(
        attributes: serde_json::Map<String, serde_json::Value>,
        additional_fields: AdditionalFields,
    ) -> (made: Self)
        ensures
            made@.zarr_format == 3,
            made@.node_type == "group"@,
            made@.attributes == json_members(attributes),
            made@.additional_fields == additional_fields@,
    {
        GroupMetadataV3 {
            zarr_format: 3,
            node_type: String::from_str("group"),
            attributes,
            additional_fields,
        }
    }

    /// Tells whether the version of the layout is 3.
    pub fn validate_format(&self) -> (valid: bool)
        ensures
            valid == (self.zarr_format == 3),
    {
        self.zarr_format == 3
    }

    /// Tells whether the kind of node is `group`.
    pub fn validate_node_type(&self) -> (valid: bool)
        ensures
            valid == (self.node_type@ == "group"@),
    {
        str_eq(self.node_type.as_str(), "group")
    }

    /// The document of the metadata as a JSON value.
    pub fn to_json(&self) -> (value: serde_json::Value)
        ensures
            json_model(value) == JsonModel::Object(spec_document_v3(self@)),
    {
        let mut object = json_clone_object(self.additional_fields.as_map());
        json_object_insert(
            &mut object,
            String::from_str("zarr_format"),
            json_from_u64(self.zarr_format as u64),
        );
        json_object_insert(
            &mut object,
            String::from_str("node_type"),
            json_from_string(self.node_type.clone()),
        );
        if !json_object_is_empty(&self.attributes) {
            json_object_insert(
                &mut object,
                String::from_str("attributes"),
                json_from_object(json_clone_object(&self.attributes)),
            );
        }
        json_from_object(object)
    }
}

impl GroupMetadataV2 {
    /// The document of the metadata as a JSON value.
    pub fn to_json(&self) -> (value: serde_json::Value)
        ensures
            json_model(value) == JsonModel::Object(spec_document_v2(self@)),
    {
        let mut object = json_clone_object(self.additional_fields.as_map());
        json_object_insert(
            &mut object,
            String::from_str("zarr_format"),
            json_from_u64(self.zarr_format as u64),
        );
        if !json_object_is_empty(&self.attributes) {
            json_object_insert(
                &mut object,
                String::from_str("attributes"),
                json_from_object(json_clone_object(&self.attributes)),
            );
        }
        json_from_object(object)
    }
}

/// The V3 metadata with the attributes and additional fields of V2 metadata.
pub fn group_metadata_v2_to_v3(metadata: &GroupMetadataV2) -> (converted: GroupMetadataV3)
    ensures
        converted@.zarr_format == 3,
        converted@.node_type == "group"@,
        converted@.attributes == metadata@.attributes,
        converted@.additional_fields == metadata@.additional_fields,
{
    GroupMetadataV3::new(
        json_clone_object(&metadata.attributes),
        metadata.additional_fields.clone(),
    )
}

impl GroupMetadata {
    /// The document of the metadata as a JSON value.
    pub fn to_json(&self) -> (value: serde_json::Value)
        ensures
            json_model(value) == JsonModel::Object(spec_document(self@)),
    {
        match self {
            GroupMetadata::V3(m) => m.to_json(),
            GroupMetadata::V2(m) => m.to_json(),
        }
    }

    /// The document of the metadata as compact JSON text.
    pub fn to_string(&self) -> (text: String)
        ensures
            text@ == json_text(JsonModel::Object(spec_document(self@))),
    {
        json_to_string(&self.to_json())
    }

    /// Reads group metadata out of a JSON value.
    pub fn from_json(value: serde_json::Value) -> (read: Result<GroupMetadata, String>)
        ensures
            spec_metadata_read(json_model(value), read),
    {
        proof {
            lemma_member_names_differ();
        }
        let mut object = match json_into_object(value) {
            Some(object) => object,
            None => {
                return Err(mismatch_message());
            },
        };
        let ghost members = json_members(object);
        let zarr_format: u64 = match json_object_remove(&mut object, "zarr_format") {
            Some(member) => match json_as_u64(&member) {
                Some(number) => number,
                None => {
                    return Err(mismatch_message());
                },
            },
            None => {
                return Err(mismatch_message());
            },
        };
        if zarr_format > usize::MAX as u64 {
            return Err(mismatch_message());
        }
        let node_type: Option<String> = match json_object_remove(&mut object, "node_type") {
            Some(member) => match json_as_str(&member) {
                Some(text) => Some(String::from_str(text)),
                None => {
                    return Err(mismatch_message());
                },
            },
            None => None,
        };
        let attributes = match json_object_remove(&mut object, "attributes") {
            Some(member) => match json_into_object(member) {
                Some(attributes) => attributes,
                None => {
                    return Err(mismatch_message());
                },
            },
            None => json_object_new(),
        };
        assert(spec_is_group_document(members));
        assert(json_members(object) == spec_additional_of(members));
        let additional_fields = AdditionalFields::new(object);
        match node_type {
            Some(node_type) => Ok(
                GroupMetadata::V3(
                    GroupMetadataV3 {
                        zarr_format: zarr_format as usize,
                        node_type,
                        attributes,
                        additional_fields,
                    },
                ),
            ),
            None => Ok(
                GroupMetadata::V2(
                    GroupMetadataV2 {
                        zarr_format: zarr_format as usize,
                        attributes,
                        additional_fields,
                    },
                ),
            ),
        }
    }

    /// Reads group metadata out of JSON text. Text that is no JSON fails with
    /// the message of the parser; JSON that is no document of group metadata
    /// fails with a message that says so.
    pub fn from_slice(bytes: &[u8]) -> (read: Result<GroupMetadata, String>)
        ensures
            match json_parsed(bytes@) {
                Ok(model) => spec_metadata_read(model, read),
                Err(message) => read matches Err(e) && e@ == message,
            },
    {
        match json_from_slice(bytes) {
            Ok(value) => GroupMetadata::from_json(value),
            Err(error) => Err(json_error_message(&error)),
        }
    }
}

/// The message for a JSON value that is not the document of group metadata.
pub fn mismatch_message() -> (text: String)
    ensures
        text@ == spec_mismatch_message(),
{
    String::from_str("data did not match any variant of untagged enum GroupMetadata")
}

/// Reading back what was written: the document of metadata is a document of
/// group metadata and holds that metadata again, where the additional fields
/// use none of the names that the library knows.
pub proof fn law_document_holds_metadata(m: GroupMetadataView)
    requires
        !spec_additional(m).contains_key("zarr_format"@),
        !spec_additional(m).contains_key("node_type"@),
        !spec_additional(m).contains_key("attributes"@),
    ensures
        spec_is_group_document(spec_document(m)),
        spec_metadata_of(spec_document(m)) == m,
{
    lemma_member_names_differ();
    let document = spec_document(m);
    match m {
        GroupMetadataView::V3(v) => {
            assert(spec_additional_of(document) =~= v.additional_fields);
            assert(spec_attributes_of(document) =~= v.attributes);
        },
        GroupMetadataView::V2(v) => {
            assert(spec_additional_of(document) =~= v.additional_fields);
            assert(spec_attributes_of(document) =~= v.attributes);
        },
    }
}

/// The additional fields of metadata.
pub open spec fn spec_additional(m: GroupMetadataView) -> Map<Seq<char>, JsonModel> {
    match m {
        GroupMetadataView::V3(v) => v.additional_fields,
        GroupMetadataView::V2(v) => v.additional_fields,
    }
}

} // verus!
