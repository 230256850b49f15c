//! Metadata of nodes: the versions of the layout that can be asked for, and
//! the additional fields of a metadata document.

use crate::json::{
    json_as_bool, json_as_object, json_clone_object, json_clone_value, json_members, json_model,
    json_object_get, json_object_names, json_object_new, json_text, json_to_string,
    spec_no_members, JsonModel,
};
use vstd::prelude::*;
use vstd::string::*;

verus! {

/// The metadata version to retrieve.
#[derive(Clone, Copy, Debug, PartialEq, Eq, Structural)]
pub enum MetadataRetrieveVersion {
    /// Either V3 or V2. V3 is preferred where both are found.
    Default,
    /// V3.
    V3,
    /// V2.
    V2,
}

/// The metadata version to write.
#[derive(Clone, Copy, Debug, PartialEq, Eq, Structural)]
pub enum MetadataConvertVersion {
    /// Write the version that the metadata has.
    Default,
    /// Write V3 metadata. V2 metadata is not removed where it exists.
    V3,
}

impl Default for MetadataConvertVersion {
    fn default() -> (version: Self)
        ensures
            version == MetadataConvertVersion::Default,
    {
        MetadataConvertVersion::Default
    }
}

/// The metadata version to erase.
#[derive(Clone, Copy, Debug, PartialEq, Eq, Structural)]
pub enum MetadataEraseVersion {
    /// Erase the version that the metadata has.
    Default,
    /// Erase all metadata.
    All,
    /// Erase V3 metadata.
    V3,
    /// Erase V2 metadata.
    V2,
}

impl Default for MetadataEraseVersion {
    fn default() -> (version: Self)
        ensures
            version == MetadataEraseVersion::Default,
    {
        MetadataEraseVersion::Default
    }
}

/// Whether an additional field may be ignored by a reader that does not know
/// it: it is an object with a member `must_understand` that is `false`.
pub open spec fn spec_field_allowed(field: JsonModel) -> bool {
    field matches JsonModel::Object(members) && members.contains_key("must_understand"@)
        && members["must_understand"@] == JsonModel::Bool(false)
}

/// Whether every field of `fields` may be ignored.
pub open spec fn spec_fields_allowed(fields: Map<Seq<char>, JsonModel>) -> bool {
    forall|name: Seq<char>| #[trigger] fields.contains_key(name) ==> spec_field_allowed(fields[name])
}

/// Tells whether an additional field may be ignored.
pub fn is_unknown_field_allowed(field: &serde_json::Value) -> (allowed: bool)
    ensures
        allowed == spec_field_allowed(json_model(*field)),
{
    match json_as_object(field) {
        Some(members) => match json_object_get(members, String::from_str("must_understand")) {
            Some(must_understand) => match json_as_bool(must_understand) {
                Some(must) => !must,
                None => false,
            },
            None => false,
        },
        None => false,
    }
}

/// The members of a metadata document that the library does not know.
#[derive(Debug, PartialEq, Eq)]
pub struct AdditionalFields {
    fields: serde_json::Map<String, serde_json::Value>,
}

/// An additional field that a reader must understand and this library does
/// not.
#[derive(Debug, PartialEq, Eq)]
pub struct UnsupportedAdditionalFieldError {
    /// The name of the field.
    pub name: String,
    /// The field.
    pub value: serde_json::Value,
}

impl UnsupportedAdditionalFieldError {
    /// The name of the field.
    pub fn name(&self) -> (name: &str)
        ensures
            name@ == self.name@,
    {
        self.name.as_str()
    }

    /// The field.
    pub fn value(&self) -> (value: &serde_json::Value)
        ensures
            *value == self.value,
    {
        &self.value
    }

    /// The message of the error.
    pub fn to_string(&self) -> (text: String)
        ensures
            text@ == "unsupported additional field "@ + self.name@ + " with value "@ + json_text(
                json_model(self.value),
            ),
    {
        let mut text = String::from_str("unsupported additional field ");
        text.append(self.name.as_str());
        text.append(" with value ");
        let value = json_to_string(&self.value);
        text.append(value.as_str());
        text
    }
}

impl View for AdditionalFields {
    type V = Map<Seq<char>, JsonModel>;

    closed spec fn view(&self) -> Map<Seq<char>, JsonModel> {
        json_members(self.fields)
    }
}

impl Clone for AdditionalFields {
    fn clone(&self) -> (copy: Self)
        ensures
            copy@ == self@,
    {
        AdditionalFields { fields: json_clone_object(&self.fields) }
    }
}

impl Default for AdditionalFields {
    fn default() -> (fields: Self)
        ensures
            fields@ == spec_no_members(),
    {
        AdditionalFields { fields: json_object_new() }
    }
}

impl From<serde_json::Map<String, serde_json::Value>> for AdditionalFields {
    fn from(fields: serde_json::Map<String, serde_json::Value>) -> (made: Self) {
        AdditionalFields { fields }
    }
}

impl vstd::std_specs::convert::FromSpecImpl<serde_json::Map<String, serde_json::Value>> for AdditionalFields {
    open spec fn obeys_from_spec() -> bool {
        true
    }

    closed spec fn from_spec(fields: serde_json::Map<String, serde_json::Value>) -> Self {
        AdditionalFields { fields }
    }
}

impl AdditionalFields {
    /// The additional fields that `fields` holds.
    pub fn new(fields: serde_json::Map<String, serde_json::Value>) -> (made: Self)
        ensures
            made@ == json_members(fields),
    {
        AdditionalFields { fields }
    }

    /// The fields as an object.
    pub fn as_map(&self) -> (fields: &serde_json::Map<String, serde_json::Value>)
        ensures
            json_members(*fields) == self@,
    {
        &self.fields
    }

    /// Checks that every field may be ignored. The error names a field that
    /// may not.
    pub fn validate(&self) -> (checked: Result<(), UnsupportedAdditionalFieldError>)
        ensures
            checked is Ok <==> spec_fields_allowed(self@),
            checked matches Err(e) ==> self@.contains_key(e.name@) && !spec_field_allowed(
                self@[e.name@],
            ) && json_model(e.value) == self@[e.name@],
    {
        let names = json_object_names(&self.fields);
        let mut i: usize = 0;
        while i < names.len()
            invariant
                i <= names@.len(),
                forall|k: int|
                    0 <= k < names@.len() ==> self@.contains_key((#[trigger] names@[k])@),
                forall|k: int|
                    0 <= k < i ==> spec_field_allowed(self@[(#[trigger] names@[k])@]),
            decreases names@.len() - i,
        {
            let name = names[i].clone();
            assert(self@.contains_key(names@[i as int]@));
            match json_object_get(&self.fields, name.clone()) {
                Some(field) => {
                    if !is_unknown_field_allowed(field) {
                        return Err(
                            UnsupportedAdditionalFieldError {
                                name: name,
                                value: json_clone_value(field),
                            },
                        );
                    }
                },
                None => {},
            }
            i += 1;
        }
        assert forall|name: Seq<char>| #[trigger] self@.contains_key(name) implies spec_field_allowed(
            self@[name],
        ) by {
            let k = choose|k: int| 0 <= k < names@.len() && (#[trigger] names@[k])@ == name;
            assert(spec_field_allowed(self@[names@[k]@]));
        }
        Ok(())
    }
}

} // verus!
