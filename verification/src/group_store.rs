//! Writing and erasing the metadata of a group in a store: which objects are
//! written or erased, in which order, and what a store holds afterwards.

use crate::group_metadata::{
    group_metadata_v2_to_v3, spec_document_v2, spec_document_v3, GroupMetadata, GroupMetadataV2,
    GroupMetadataV2View, GroupMetadataV3View, GroupMetadataView,
};
use crate::json::{
    json_clone_object, json_from_object, json_object_is_empty, json_object_new, json_pretty,
    json_to_vec_pretty, spec_no_members, JsonModel,
};
use crate::metadata::{MetadataConvertVersion, MetadataEraseVersion};
use crate::node::{
    meta_key, meta_key_v2_attributes, meta_key_v2_group, spec_meta_name,
    spec_meta_name_v2_attributes, spec_meta_name_v2_group, spec_node_key, NodePath,
};
use crate::storage::{StorageError, StoreKey, WritableStorageTraits};
use vstd::prelude::*;

verus! {

/// The metadata that is written for `m` where `version` is asked for: V3
/// metadata as it is; V2 metadata as it is by default, and its conversion
/// where V3 is asked for.
pub open spec fn spec_metadata_to_store(
    m: GroupMetadataView,
    version: MetadataConvertVersion,
) -> GroupMetadataView {
    match (m, version) {
        (GroupMetadataView::V3(v), _) => GroupMetadataView::V3(v),
        (GroupMetadataView::V2(v), MetadataConvertVersion::V3) => GroupMetadataView::V3(
            GroupMetadataV3View {
                zarr_format: 3,
                node_type: "group"@,
                attributes: v.attributes,
                additional_fields: v.additional_fields,
            },
        ),
        (GroupMetadataView::V2(v), MetadataConvertVersion::Default) => GroupMetadataView::V2(v),
    }
}

/// Decides which metadata is written for `metadata` where `version` is asked
/// for.
pub fn metadata_to_store(metadata: &GroupMetadata, version: MetadataConvertVersion) -> (chosen:
    GroupMetadata)
    ensures
        chosen@ == spec_metadata_to_store(metadata@, version),
{
    match metadata {
        GroupMetadata::V3(m) => GroupMetadata::V3(m.clone()),
        GroupMetadata::V2(m) => match version {
            MetadataConvertVersion::V3 => GroupMetadata::V3(group_metadata_v2_to_v3(m)),
            MetadataConvertVersion::Default => GroupMetadata::V2(m.clone()),
        },
    }
}

/// The objects that are written for the metadata `m` of the group at `path`,
/// in the order of writing: for V3 the document; for V2 the attributes, where
/// there are any, and then the document without them.
pub open spec fn spec_group_writes(path: Seq<char>, m: GroupMetadataView) -> Seq<
    (Seq<char>, Seq<u8>),
> {
    match m {
        GroupMetadataView::V3(v) => seq![
            (
                spec_node_key(path, spec_meta_name()),
                json_pretty(JsonModel::Object(spec_document_v3(v))),
            ),
        ],
        GroupMetadataView::V2(v) => {
            let document = (
                spec_node_key(path, spec_meta_name_v2_group()),
                json_pretty(
                    JsonModel::Object(
                        spec_document_v2(
                            GroupMetadataV2View {
                                zarr_format: v.zarr_format,
                                attributes: spec_no_members(),
                                additional_fields: v.additional_fields,
                            },
                        ),
                    ),
                ),
            );
            if v.attributes == spec_no_members() {
                seq![document]
            } else {
                seq![
                    (
                        spec_node_key(path, spec_meta_name_v2_attributes()),
                        json_pretty(JsonModel::Object(v.attributes)),
                    ),
                    document,
                ]
            }
        },
    }
}

/// The keys and bytes that a list of writes holds.
pub open spec fn spec_writes_view(writes: Seq<(StoreKey, Vec<u8>)>) -> Seq<(Seq<char>, Seq<u8>)> {
    Seq::new(writes.len(), |i: int| (writes[i].0@, writes[i].1@))
}

/// The texts of a list of keys.
pub open spec fn spec_keys_view(keys: Seq<StoreKey>) -> Seq<Seq<char>> {
    Seq::new(keys.len(), |i: int| keys[i]@)
}

/// Makes the list of objects to write for the metadata of the group at
/// `path`.
pub fn group_writes(path: &NodePath, metadata: &GroupMetadata) -> (writes: Vec<
    (StoreKey, Vec<u8>),
>)
    ensures
        spec_writes_view(writes@) == spec_group_writes(path@, metadata@),
{
    let mut writes: Vec<(StoreKey, Vec<u8>)> = Vec::new();
    match metadata {
        GroupMetadata::V3(m) => {
            writes.push((meta_key(path), json_to_vec_pretty(&m.to_json())));
        },
        GroupMetadata::V2(m) => {
            if !json_object_is_empty(&m.attributes) {
                let attributes = json_from_object(json_clone_object(&m.attributes));
                writes.push((meta_key_v2_attributes(path), json_to_vec_pretty(&attributes)));
            }
            let bare = GroupMetadataV2 {
                zarr_format: m.zarr_format,
                attributes: json_object_new(),
                additional_fields: m.additional_fields.clone(),
            };
            writes.push((meta_key_v2_group(path), json_to_vec_pretty(&bare.to_json())));
        },
    }
    assert(spec_writes_view(writes@) =~= spec_group_writes(path@, metadata@));
    writes
}

/// What a store holds after the writes `writes`, made in order.
pub open spec fn spec_apply_writes(
    contents: Map<Seq<char>, Seq<u8>>,
    writes: Seq<(Seq<char>, Seq<u8>)>,
) -> Map<Seq<char>, Seq<u8>>
    decreases writes.len(),
{
    if writes.len() == 0 {
        contents
    } else {
        spec_apply_writes(contents, writes.drop_last()).insert(writes.last().0, writes.last().1)
    }
}

/// What a store holds after the keys `keys` were erased.
pub open spec fn spec_remove_keys(contents: Map<Seq<char>, Seq<u8>>, keys: Seq<Seq<char>>) -> Map<
    Seq<char>,
    Seq<u8>,
>
    decreases keys.len(),
{
    if keys.len() == 0 {
        contents
    } else {
        spec_remove_keys(contents, keys.drop_last()).remove(keys.last())
    }
}

/// What making the writes `writes` in order comes to: all were made, or the
/// first failure stopped the work, and the writes before it were made.
pub open spec fn spec_writes_outcome(
    before: Map<Seq<char>, Seq<u8>>,
    writes: Seq<(Seq<char>, Seq<u8>)>,
    after: Map<Seq<char>, Seq<u8>>,
    done: Result<(), StorageError>,
) -> bool {
    match done {
        Ok(_) => after == spec_apply_writes(before, writes),
        Err(_) => exists|i: int|
            0 <= i < writes.len() && after == spec_apply_writes(before, #[trigger] writes.take(i)),
    }
}

/// What erasing the keys `keys` in order comes to: all were erased, or the
/// first failure stopped the work, and the keys before it were erased.
pub open spec fn spec_erase_outcome(
    before: Map<Seq<char>, Seq<u8>>,
    keys: Seq<Seq<char>>,
    after: Map<Seq<char>, Seq<u8>>,
    done: Result<(), StorageError>,
) -> bool {
    match done {
        Ok(_) => after == spec_remove_keys(before, keys),
        Err(_) => exists|i: int|
            0 <= i < keys.len() && after == spec_remove_keys(before, #[trigger] keys.take(i)),
    }
}

/// Makes the writes `writes` in order, and stops at the first that fails.
pub fn store_writes<S: WritableStorageTraits>(
    storage: &mut S,
    writes: &Vec<(StoreKey, Vec<u8>)>,
) -> (done: Result<(), StorageError>)
    ensures
        spec_writes_outcome(
            old(storage).contents(),
            spec_writes_view(writes@),
            final(storage).contents(),
            done,
        ),
        final(storage).reliable() == old(storage).reliable(),
        old(storage).reliable() ==> done is Ok,
{
    let ghost before = storage.contents();
    let ghost plan = spec_writes_view(writes@);
    let mut i: usize = 0;
    assert(plan.take(0) =~= Seq::empty());
    while i < writes.len()
        invariant
            i <= writes@.len(),
            plan == spec_writes_view(writes@),
            storage.contents() == spec_apply_writes(before, plan.take(i as int)),
            storage.reliable() == old(storage).reliable(),
            before == old(storage).contents(),
        decreases writes@.len() - i,
    {
        let write = &writes[i];
        match storage.set(&write.0, write.1.as_slice()) {
            Ok(()) => {},
            Err(e) => {
                assert(storage.contents() == spec_apply_writes(before, plan.take(i as int)));
                return Err(e);
            },
        }
        proof {
            assert(plan.take(i + 1).drop_last() =~= plan.take(i as int));
            assert(plan.take(i + 1).last() == plan[i as int]);
        }
        i += 1;
    }
    assert(plan.take(i as int) =~= plan);
    Ok(())
}

/// Erases the keys `keys` in order, and stops at the first that fails.
pub fn erase_keys<S: WritableStorageTraits>(storage: &mut S, keys: &Vec<StoreKey>) -> (done: Result<
    (),
    StorageError,
>)
    ensures
        spec_erase_outcome(
            old(storage).contents(),
            spec_keys_view(keys@),
            final(storage).contents(),
            done,
        ),
        final(storage).reliable() == old(storage).reliable(),
        old(storage).reliable() ==> done is Ok,
{
    let ghost before = storage.contents();
    let ghost plan = spec_keys_view(keys@);
    let mut i: usize = 0;
    assert(plan.take(0) =~= Seq::empty());
    while i < keys.len()
        invariant
            i <= keys@.len(),
            plan == spec_keys_view(keys@),
            storage.contents() == spec_remove_keys(before, plan.take(i as int)),
            storage.reliable() == old(storage).reliable(),
            before == old(storage).contents(),
        decreases keys@.len() - i,
    {
        match storage.erase(&keys[i]) {
            Ok(()) => {},
            Err(e) => {
                assert(storage.contents() == spec_remove_keys(before, plan.take(i as int)));
                return Err(e);
            },
        }
        proof {
            assert(plan.take(i + 1).drop_last() =~= plan.take(i as int));
            assert(plan.take(i + 1).last() == plan[i as int]);
        }
        i += 1;
    }
    assert(plan.take(i as int) =~= plan);
    Ok(())
}

/// The names of the metadata files that are erased for a group whose
/// metadata is V3, or is not, where `version` is asked for, in the order of
/// erasing.
pub open spec fn spec_erase_names(is_v3: bool, version: MetadataEraseVersion) -> Seq<Seq<char>> {
    match version {
        MetadataEraseVersion::Default => if is_v3 {
            seq![spec_meta_name()]
        } else {
            seq![spec_meta_name_v2_group(), spec_meta_name_v2_attributes()]
        },
        MetadataEraseVersion::All => seq![
            spec_meta_name(),
            spec_meta_name_v2_group(),
            spec_meta_name_v2_attributes(),
        ],
        MetadataEraseVersion::V3 => seq![spec_meta_name()],
        MetadataEraseVersion::V2 => seq![
            spec_meta_name_v2_group(),
            spec_meta_name_v2_attributes(),
        ],
    }
}

/// The keys that are erased for the group at `path`, in the order of erasing.
pub open spec fn spec_group_erase_keys(
    path: Seq<char>,
    is_v3: bool,
    version: MetadataEraseVersion,
) -> Seq<Seq<char>> {
    Seq::new(
        spec_erase_names(is_v3, version).len(),
        |i: int| spec_node_key(path, spec_erase_names(is_v3, version)[i]),
    )
}

/// Makes the list of keys to erase for the group at `path` with the metadata
/// `metadata`, where `version` is asked for.
pub fn group_erase_keys(
    path: &NodePath,
    metadata: &GroupMetadata,
    version: MetadataEraseVersion,
) -> (keys: Vec<StoreKey>)
    ensures
        spec_keys_view(keys@) == spec_group_erase_keys(path@, metadata@ is V3, version),
{
    let is_v3 = match metadata {
        GroupMetadata::V3(_) => true,
        GroupMetadata::V2(_) => false,
    };
    let current = match version {
        MetadataEraseVersion::Default => is_v3,
        MetadataEraseVersion::All => true,
        MetadataEraseVersion::V3 => true,
        MetadataEraseVersion::V2 => false,
    };
    let older = match version {
        MetadataEraseVersion::Default => !is_v3,
        MetadataEraseVersion::All => true,
        MetadataEraseVersion::V3 => false,
        MetadataEraseVersion::V2 => true,
    };
    let mut keys: Vec<StoreKey> = Vec::new();
    if current {
        keys.push(meta_key(path));
    }
    if older {
        keys.push(meta_key_v2_group(path));
        keys.push(meta_key_v2_attributes(path));
    }
    assert(spec_keys_view(keys@) =~= spec_group_erase_keys(path@, metadata@ is V3, version));
    keys
}

/// Writes the metadata `metadata` of the group at `path` into `storage`.
pub fn create_group<S: WritableStorageTraits>(
    storage: &mut S,
    path: &NodePath,
    metadata: &GroupMetadata,
) -> (done: Result<(), StorageError>)
    ensures
        spec_writes_outcome(
            old(storage).contents(),
            spec_group_writes(path@, metadata@),
            final(storage).contents(),
            done,
        ),
        final(storage).reliable() == old(storage).reliable(),
        old(storage).reliable() ==> done is Ok,
{
    let writes = group_writes(path, metadata);
    store_writes(storage, &writes)
}

} // verus!
