//! Groups: nodes of a hierarchy that hold metadata and may have children.

use crate::group_metadata::{
    spec_document, spec_is_group_document, spec_metadata_of, spec_mismatch_message,
    GroupMetadata, GroupMetadataV3, GroupMetadataV3View, GroupMetadataView,
};
use crate::group_store::{
    create_group, erase_keys, group_erase_keys, metadata_to_store, spec_erase_outcome,
    spec_group_erase_keys, spec_group_writes, spec_metadata_to_store, spec_writes_outcome,
};
use crate::json::{
    json_members, json_model, json_parsed, json_text, spec_no_members, JsonModel,
};
use crate::metadata::{
    spec_field_allowed, spec_fields_allowed, AdditionalFields, MetadataConvertVersion,
    MetadataEraseVersion, UnsupportedAdditionalFieldError,
};
use crate::node::{
    meta_key, spec_meta_name, spec_node_key, spec_valid_node_path, NodePath, NodePathError,
};
use crate::storage::{ReadableStorageTraits, StorageError, WritableStorageTraits};
use crate::text::{concat3, decimal, spec_decimal};
use vstd::prelude::*;
use vstd::string::*;

verus! {

/// The version of metadata to write, as an option of a group.
pub type MetadataOptionsStoreVersion = MetadataConvertVersion;

/// The version of metadata to erase, as an option of a group.
pub type MetadataOptionsEraseVersion = MetadataEraseVersion;

/// Options for writing the metadata of a group.
#[derive(Clone, Copy, Debug, PartialEq, Eq, Structural)]
pub struct GroupMetadataOptions {
    /// The version to write.
    pub metadata_store_version: MetadataOptionsStoreVersion,
}

impl Default for GroupMetadataOptions {
    fn default() -> (options: Self)
        ensures
            options.metadata_store_version == MetadataConvertVersion::Default,
    {
        GroupMetadataOptions { metadata_store_version: MetadataConvertVersion::Default }
    }
}

impl GroupMetadataOptions {
    /// The version to write.
    pub fn metadata_store_version(&self) -> (version: &MetadataOptionsStoreVersion)
        ensures
            *version == self.metadata_store_version,
    {
        &self.metadata_store_version
    }

    /// Sets the version to write.
    pub fn set_metadata_store_version(&mut self, version: MetadataOptionsStoreVersion)
        ensures
            final(self).metadata_store_version == version,
    {
        self.metadata_store_version = version;
    }
}

/// Why a group could not be made.
#[derive(Debug, PartialEq, Eq)]
pub enum GroupCreateError {
    /// The version of the layout is not 3.
    InvalidZarrFormat(usize),
    /// The kind of node is not `group`.
    InvalidNodeType(String),
    /// The path is not the path of a node.
    NodePathError(NodePathError),
    /// An additional field must be understood and is not.
    UnsupportedAdditionalFieldError(UnsupportedAdditionalFieldError),
    /// The store failed, or the metadata in it is no metadata.
    StorageError(StorageError),
}

impl GroupCreateError {
    /// The message of the error.
    pub open spec fn spec_text(&self) -> Seq<char> {
        match *self {
            GroupCreateError::InvalidZarrFormat(format) => "invalid zarr format "@ + spec_decimal(
                format as nat,
            ) + ", expected 3"@,
            GroupCreateError::InvalidNodeType(node_type) => "invalid zarr format "@ + node_type@
                + ", expected group"@,
            GroupCreateError::NodePathError(e) => "invalid node path "@ + e.path@,
            GroupCreateError::UnsupportedAdditionalFieldError(e) => "unsupported additional field "@
                + e.name@ + " with value "@ + json_text(json_model(e.value)),
            GroupCreateError::StorageError(e) => e.spec_text(),
        }
    }

    /// The message of the error.
    pub fn to_string(&self) -> (text: String)
        ensures
            text@ == self.spec_text(),
    {
        match self {
            GroupCreateError::InvalidZarrFormat(format) => {
                let digits = decimal(*format as u128);
                concat3("invalid zarr format ", digits.as_str(), ", expected 3")
            },
            GroupCreateError::InvalidNodeType(node_type) => concat3(
                "invalid zarr format ",
                node_type.as_str(),
                ", expected group",
            ),
            GroupCreateError::NodePathError(e) => e.to_string(),
            GroupCreateError::UnsupportedAdditionalFieldError(e) => e.to_string(),
            GroupCreateError::StorageError(e) => e.to_string(),
        }
    }
}

/// What validating the metadata `m` of a group comes to. V3 metadata must have
/// the version 3, then the kind of node `group`, then only additional fields
/// that may be ignored: the first of these that fails is the error. V2
/// metadata passes.
pub open spec fn spec_validated(m: GroupMetadataView, checked: Result<(), GroupCreateError>) -> bool {
    match m {
        GroupMetadataView::V3(v) => if v.zarr_format != 3 {
            checked == Err::<(), GroupCreateError>(
                GroupCreateError::InvalidZarrFormat(v.zarr_format),
            )
        } else if v.node_type != "group"@ {
            checked matches Err(GroupCreateError::InvalidNodeType(node_type)) && node_type@
                == v.node_type
        } else if !spec_fields_allowed(v.additional_fields) {
            checked matches Err(GroupCreateError::UnsupportedAdditionalFieldError(e))
                && v.additional_fields.contains_key(e.name@) && !spec_field_allowed(
                v.additional_fields[e.name@],
            ) && json_model(e.value) == v.additional_fields[e.name@]
        } else {
            checked is Ok
        },
        GroupMetadataView::V2(_) => checked is Ok,
    }
}

/// Whether the metadata `m` of a group is valid.
pub open spec fn spec_valid_metadata(m: GroupMetadataView) -> bool {
    match m {
        GroupMetadataView::V3(v) => v.zarr_format == 3 && v.node_type == "group"@
            && spec_fields_allowed(v.additional_fields),
        GroupMetadataView::V2(_) => true,
    }
}

/// Validates the metadata of a group.
pub fn validate_group_metadata(metadata: &GroupMetadata) -> (checked: Result<(), GroupCreateError>)
    ensures
        spec_validated(metadata@, checked),
        checked is Ok <==> spec_valid_metadata(metadata@),
{
    match metadata {
        GroupMetadata::V3(metadata) => {
            if !metadata.validate_format() {
                Err(GroupCreateError::InvalidZarrFormat(metadata.zarr_format))
            } else if !metadata.validate_node_type() {
                Err(GroupCreateError::InvalidNodeType(metadata.node_type.clone()))
            } else {
                match metadata.additional_fields.validate() {
                    Ok(()) => Ok(()),
                    Err(e) => Err(GroupCreateError::UnsupportedAdditionalFieldError(e)),
                }
            }
        },
        GroupMetadata::V2(_) => Ok(()),
    }
}

/// A group: a store, the path of the group in it, and the metadata of the
/// group.
#[derive(Debug)]
pub struct Group<TStorage> {
    storage: TStorage,
    path: NodePath,
    metadata: GroupMetadata,
}

/// What making a group at `path` with the metadata `m` comes to: a path that
/// is not the path of a node is refused first, then metadata that is not
/// valid; otherwise the group is made.
pub open spec fn spec_group_made<TStorage>(
    storage: TStorage,
    path: Seq<char>,
    m: GroupMetadataView,
    made: Result<Group<TStorage>, GroupCreateError>,
) -> bool {
    if !spec_valid_node_path(path) {
        made matches Err(GroupCreateError::NodePathError(e)) && e.path@ == path
    } else {
        match made {
            Ok(group) => spec_valid_metadata(m) && group.spec_storage() == storage
                && group.spec_path() == path && group.spec_metadata()@ == m,
            Err(e) => spec_validated(m, Err::<(), GroupCreateError>(e)) && !spec_valid_metadata(m),
        }
    }
}

impl<TStorage: Clone> Clone for Group<TStorage> {
    /// A group of its own with a copy of the store, the same path and the
    /// same metadata. Of the copy of the store nothing is stated.
    fn clone(&self) -> (copy: Self)
        ensures
            copy.spec_path() == self.spec_path(),
            copy.spec_metadata()@ == self.spec_metadata()@,
    {
        Group {
            storage: self.storage.clone(),
            path: self.path.clone(),
            metadata: self.metadata.clone(),
        }
    }
}

impl<TStorage> Group<TStorage> {
    /// The store.
    pub closed spec fn spec_storage(&self) -> TStorage {
        self.storage
    }

    /// The path.
    pub closed spec fn spec_path(&self) -> Seq<char> {
        self.path@
    }

    /// The metadata.
    pub closed spec fn spec_metadata(&self) -> GroupMetadata {
        self.metadata
    }

    /// Makes a group in `storage` at `path` with `metadata`. Nothing is
    /// written to the store.
    pub fn new_with_metadata(storage: TStorage, path: &str, metadata: GroupMetadata) -> (made: Result<
        Self,
        GroupCreateError,
    >)
        ensures
            spec_group_made(storage, path@, metadata@, made),
    {
        let path = match NodePath::new(path) {
            Ok(path) => path,
            Err(e) => {
                return Err(GroupCreateError::NodePathError(e));
            },
        };
        match validate_group_metadata(&metadata) {
            Ok(()) => {},
            Err(e) => {
                return Err(e);
            },
        }
        Ok(Group { storage, path, metadata })
    }

    /// The path of the group.
    pub fn path(&self) -> (path: &NodePath)
        ensures
            path@ == self.spec_path(),
    {
        &self.path
    }

    /// The store of the group.
    pub fn storage(&self) -> (storage: &TStorage)
        ensures
            *storage == self.spec_storage(),
    {
        &self.storage
    }

    /// Gives the store of the group back.
    pub fn into_storage(self) -> (storage: TStorage)
        ensures
            storage == self.spec_storage(),
    {
        self.storage
    }

    /// The attributes of the group.
    pub fn attributes(&self) -> (attributes: &serde_json::Map<String, serde_json::Value>)
        ensures
            json_members(*attributes) == spec_attributes(self.spec_metadata()@),
    {
        match &self.metadata {
            GroupMetadata::V3(metadata) => &metadata.attributes,
            GroupMetadata::V2(metadata) => &metadata.attributes,
        }
    }

    /// The additional fields of the group.
    pub fn additional_fields(&self) -> (fields: &AdditionalFields)
        ensures
            fields@ == spec_additional_fields(self.spec_metadata()@),
    {
        match &self.metadata {
            GroupMetadata::V3(metadata) => &metadata.additional_fields,
            GroupMetadata::V2(metadata) => &metadata.additional_fields,
        }
    }

    /// The attributes of the group, to be changed in place.
    pub fn attributes_mut(&mut self) -> (attributes: &mut serde_json::Map<String, serde_json::Value>)
        ensures
            json_members(*attributes) == spec_attributes(old(self).spec_metadata()@),
            spec_attributes(final(self).spec_metadata()@) == json_members(*final(attributes)),
            spec_additional_fields(final(self).spec_metadata()@) == spec_additional_fields(
                old(self).spec_metadata()@,
            ),
            final(self).spec_metadata()@ is V3 == old(self).spec_metadata()@ is V3,
            final(self).spec_path() == old(self).spec_path(),
            final(self).spec_storage() == old(self).spec_storage(),
    {
        match &mut self.metadata {
            GroupMetadata::V3(metadata) => &mut metadata.attributes,
            GroupMetadata::V2(metadata) => &mut metadata.attributes,
        }
    }

    /// The additional fields of the group, to be changed in place.
    pub fn additional_fields_mut(&mut self) -> (fields: &mut AdditionalFields)
        ensures
            fields@ == spec_additional_fields(old(self).spec_metadata()@),
            spec_additional_fields(final(self).spec_metadata()@) == final(fields)@,
            spec_attributes(final(self).spec_metadata()@) == spec_attributes(
                old(self).spec_metadata()@,
            ),
            final(self).spec_metadata()@ is V3 == old(self).spec_metadata()@ is V3,
            final(self).spec_path() == old(self).spec_path(),
            final(self).spec_storage() == old(self).spec_storage(),
    {
        match &mut self.metadata {
            GroupMetadata::V3(metadata) => &mut metadata.additional_fields,
            GroupMetadata::V2(metadata) => &mut metadata.additional_fields,
        }
    }

    /// A copy of the metadata of the group.
    pub fn metadata(&self) -> (metadata: GroupMetadata)
        ensures
            metadata@ == self.spec_metadata()@,
    {
        self.metadata.clone()
    }

    /// The text `group at` the path `with metadata` the document of the
    /// metadata.
    pub fn to_string(&self) -> (text: String)
        ensures
            text@ == "group at "@ + self.spec_path() + " with metadata "@ + json_text(
                JsonModel::Object(spec_document(self.spec_metadata()@)),
            ),
    {
        let mut text = concat3("group at ", self.path.as_str(), " with metadata ");
        let document = self.metadata.to_string();
        text.append(document.as_str());
        text
    }
}

/// The attributes of metadata.
pub open spec fn spec_attributes(m: GroupMetadataView) -> Map<Seq<char>, JsonModel> {
    match m {
        GroupMetadataView::V3(v) => v.attributes,
        GroupMetadataView::V2(v) => v.attributes,
    }
}

/// The additional fields of metadata.
pub open spec fn spec_additional_fields(m: GroupMetadataView) -> Map<Seq<char>, JsonModel> {
    match m {
        GroupMetadataView::V3(v) => v.additional_fields,
        GroupMetadataView::V2(v) => v.additional_fields,
    }
}

/// The metadata of a group that has none in the store: V3, without
/// attributes and without additional fields.
pub open spec fn spec_default_metadata() -> GroupMetadataView {
    GroupMetadataView::V3(
        GroupMetadataV3View {
            zarr_format: 3,
            node_type: "group"@,
            attributes: spec_no_members(),
            additional_fields: spec_no_members(),
        },
    )
}

/// What the store says of the metadata of the group at `path`: none is
/// there, so the group has the default metadata; or the object under the key
/// of the metadata is a document, and holds the metadata; or it is not, and
/// the message says why.
pub open spec fn spec_stored_metadata(contents: Map<Seq<char>, Seq<u8>>, path: Seq<char>) -> Result<
    GroupMetadataView,
    Seq<char>,
> {
    let key = spec_node_key(path, spec_meta_name());
    if !contents.contains_key(key) {
        Ok(spec_default_metadata())
    } else {
        match json_parsed(contents[key]) {
            Ok(JsonModel::Object(members)) => if spec_is_group_document(members) {
                Ok(spec_metadata_of(members))
            } else {
                Err(spec_mismatch_message())
            },
            Ok(_) => Err(spec_mismatch_message()),
            Err(message) => Err(message),
        }
    }
}

/// What opening the group at `path` in a store comes to. A path that is not
/// the path of a node is refused before the store is asked. A failure of the
/// store is handed on. An object that is no metadata is refused with the key
/// and the reason. Metadata is validated, and the group is made with it.
pub open spec fn spec_group_opened<TStorage: ReadableStorageTraits>(
    storage: TStorage,
    path: Seq<char>,
    opened: Result<Group<TStorage>, GroupCreateError>,
) -> bool {
    if !spec_valid_node_path(path) {
        opened matches Err(GroupCreateError::NodePathError(e)) && e.path@ == path
    } else {
        match opened {
            Err(GroupCreateError::StorageError(StorageError::InvalidMetadata(key, why))) => {
                ||| !storage.reliable()
                ||| (key@ == spec_node_key(path, spec_meta_name()) && spec_stored_metadata(
                    storage.contents(),
                    path,
                ) == Err::<GroupMetadataView, Seq<char>>(why@))
            },
            Err(GroupCreateError::StorageError(_)) => !storage.reliable(),
            _ => spec_stored_metadata(storage.contents(), path) matches Ok(m) && spec_group_made(
                storage,
                path,
                m,
                opened,
            ),
        }
    }
}

impl<TStorage: ReadableStorageTraits> Group<TStorage> {
    /// Opens the group at `path` in `storage`: its metadata is read from the
    /// store, and is the default metadata where the store holds none.
    pub fn new(storage: TStorage, path: &str) -> (opened: Result<Self, GroupCreateError>)
        ensures
            spec_group_opened(storage, path@, opened),
    {
        let node_path = match NodePath::new(path) {
            Ok(node_path) => node_path,
            Err(e) => {
                return Err(GroupCreateError::NodePathError(e));
            },
        };
        let key = meta_key(&node_path);
        let found = match storage.get(&key) {
            Ok(found) => found,
            Err(e) => {
                return Err(GroupCreateError::StorageError(e));
            },
        };
        let metadata = match found {
            Some(bytes) => match GroupMetadata::from_slice(bytes.as_slice()) {
                Ok(metadata) => metadata,
                Err(why) => {
                    return Err(
                        GroupCreateError::StorageError(StorageError::InvalidMetadata(key, why)),
                    );
                },
            },
            None => GroupMetadata::V3(GroupMetadataV3::default()),
        };
        Group::new_with_metadata(storage, path, metadata)
    }
}

/// The metadata of `group` with `options` applied: what is written.
pub open spec fn spec_stored_form(m: GroupMetadataView, options: GroupMetadataOptions) -> GroupMetadataView {
    spec_metadata_to_store(m, options.metadata_store_version)
}

impl<TStorage: WritableStorageTraits> Group<TStorage> {
    /// Writes the metadata of the group into its store.
    pub fn store_metadata(&mut self) -> (done: Result<(), StorageError>)
        ensures
            spec_writes_outcome(
                old(self).spec_storage().contents(),
                spec_group_writes(old(self).spec_path(), old(self).spec_metadata()@),
                final(self).spec_storage().contents(),
                done,
            ),
            old(self).spec_storage().reliable() ==> done is Ok,
            final(self).spec_storage().reliable() == old(self).spec_storage().reliable(),
            final(self).spec_path() == old(self).spec_path(),
            final(self).spec_metadata() == old(self).spec_metadata(),
    {
        create_group(&mut self.storage, &self.path, &self.metadata)
    }

    /// Writes the metadata of the group into its store in the version that
    /// `options` ask for.
    pub fn store_metadata_opt(&mut self, options: &GroupMetadataOptions) -> (done: Result<
        (),
        StorageError,
    >)
        ensures
            spec_writes_outcome(
                old(self).spec_storage().contents(),
                spec_group_writes(
                    old(self).spec_path(),
                    spec_stored_form(old(self).spec_metadata()@, *options),
                ),
                final(self).spec_storage().contents(),
                done,
            ),
            old(self).spec_storage().reliable() ==> done is Ok,
            final(self).spec_storage().reliable() == old(self).spec_storage().reliable(),
            final(self).spec_path() == old(self).spec_path(),
            final(self).spec_metadata() == old(self).spec_metadata(),
    {
        let metadata = metadata_to_store(&self.metadata, *options.metadata_store_version());
        create_group(&mut self.storage, &self.path, &metadata)
    }

    /// Erases the metadata of the group from its store, in the version that
    /// the metadata has. Erasing metadata that is not there succeeds.
    pub fn erase_metadata(&mut self) -> (done: Result<(), StorageError>)
        ensures
            spec_erase_outcome(
                old(self).spec_storage().contents(),
                spec_group_erase_keys(
                    old(self).spec_path(),
                    old(self).spec_metadata()@ is V3,
                    MetadataEraseVersion::Default,
                ),
                final(self).spec_storage().contents(),
                done,
            ),
            old(self).spec_storage().reliable() ==> done is Ok,
            final(self).spec_storage().reliable() == old(self).spec_storage().reliable(),
            final(self).spec_path() == old(self).spec_path(),
            final(self).spec_metadata() == old(self).spec_metadata(),
    {
        self.erase_metadata_opt(&MetadataEraseVersion::default())
    }

    /// Erases the metadata of the group from its store, in the version that
    /// `options` ask for. Erasing metadata that is not there succeeds.
    pub fn erase_metadata_opt(&mut self, options: &MetadataOptionsEraseVersion) -> (done: Result<
        (),
        StorageError,
    >)
        ensures
            spec_erase_outcome(
                old(self).spec_storage().contents(),
                spec_group_erase_keys(
                    old(self).spec_path(),
                    old(self).spec_metadata()@ is V3,
                    *options,
                ),
                final(self).spec_storage().contents(),
                done,
            ),
            old(self).spec_storage().reliable() ==> done is Ok,
            final(self).spec_storage().reliable() == old(self).spec_storage().reliable(),
            final(self).spec_path() == old(self).spec_path(),
            final(self).spec_metadata() == old(self).spec_metadata(),
    {
        let keys = group_erase_keys(&self.path, &self.metadata, *options);
        erase_keys(&mut self.storage, &keys)
    }
}

} // verus!
