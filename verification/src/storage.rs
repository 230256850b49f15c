//! Stores: what the library asks of a key-value store, the keys, and a store
//! that lives in memory.

use crate::byte_range::{
    all_valid, buffers_view, copy_range, extract_byte_ranges, first_invalid,
    spec_byte_range_text, spec_extract_byte_ranges, ByteRange, InvalidByteRangeError,
};
use crate::text::{concat3, spec_decimal, str_eq};
use vstd::prelude::*;
use vstd::string::*;

verus! {

/// Whether `key` can name an object of a store: it neither starts nor ends
/// with a slash.
pub open spec fn spec_valid_key(key: Seq<char>) -> bool {
    key.len() > 0 ==> key[0] != '/' && key[key.len() - 1] != '/'
}

/// The key of an object in a store.
#[derive(Debug, PartialEq, Eq)]
pub struct StoreKey {
    key: String,
}

/// A text that is not the key of an object in a store.
#[derive(Debug, PartialEq, Eq)]
pub struct StoreKeyError {
    /// The rejected text.
    pub key: String,
}

impl View for StoreKey {
    type V = Seq<char>;

    closed spec fn view(&self) -> Seq<char> {
        self.key@
    }
}

impl Clone for StoreKey {
    fn clone(&self) -> (copy: Self)
        ensures
            copy@ == self@,
    {
        StoreKey { key: self.key.clone() }
    }
}

impl StoreKey {
    /// Makes the key `key`, or rejects a text that starts or ends with a slash.
    pub fn new(key: &str) -> (made: Result<StoreKey, StoreKeyError>)
        ensures
            spec_valid_key(key@) ==> (made matches Ok(k) && k@ == key@),
            !spec_valid_key(key@) ==> (made matches Err(e) && e.key@ == key@),
    {
        let n = key.unicode_len();
        if n > 0 && (key.get_char(0) == '/' || key.get_char(n - 1) == '/') {
            Err(StoreKeyError { key: String::from_str(key) })
        } else {
            Ok(StoreKey { key: String::from_str(key) })
        }
    }

    /// Makes the key that `key` holds, which the caller knows to be valid.
    pub fn new_unchecked(key: String) -> (made: StoreKey)
        requires
            spec_valid_key(key@),
        ensures
            made@ == key@,
    {
        StoreKey { key }
    }

    /// The text of the key.
    pub fn as_str(&self) -> (text: &str)
        ensures
            text@ == self@,
    {
        self.key.as_str()
    }
}

impl StoreKeyError {
    /// The message of the error.
    pub fn to_string(&self) -> (text: String)
        ensures
            text@ == "invalid store key "@ + self.key@,
    {
        let mut text = String::from_str("invalid store key ");
        text.append(self.key.as_str());
        text
    }
}

/// Why an operation on a store failed.
#[derive(Debug, PartialEq, Eq)]
pub enum StorageError {
    /// A write was attempted on a store that cannot be written.
    ReadOnly,
    /// A text that is not a key.
    InvalidStoreKey(StoreKeyError),
    /// A byte range that does not fit the object it was asked of.
    InvalidByteRangeError(InvalidByteRangeError),
    /// The object under the key is not the metadata it should be; the second
    /// field says why.
    InvalidMetadata(StoreKey, String),
    /// Any other failure, in words.
    Other(String),
}

impl StorageError {
    /// The message of the error.
    pub open spec fn spec_text(&self) -> Seq<char> {
        match *self {
            StorageError::ReadOnly => "a write operation was attempted on a read only store"@,
            StorageError::InvalidStoreKey(e) => "invalid store key "@ + e.key@,
            StorageError::InvalidByteRangeError(e) => "invalid byte range "@
                + spec_byte_range_text(e.byte_range) + " for bytes of length "@ + spec_decimal(
                e.bytes_len as nat,
            ),
            StorageError::InvalidMetadata(key, why) => "error parsing metadata for "@ + key@
                + ": "@ + why@,
            StorageError::Other(why) => why@,
        }
    }

    /// The message of the error.
    pub fn to_string(&self) -> (text: String)
        ensures
            text@ == self.spec_text(),
    {
        match self {
            StorageError::ReadOnly => String::from_str(
                "a write operation was attempted on a read only store",
            ),
            StorageError::InvalidStoreKey(e) => e.to_string(),
            StorageError::InvalidByteRangeError(e) => e.to_string(),
            StorageError::InvalidMetadata(key, why) => {
                let mut text = concat3("error parsing metadata for ", key.as_str(), ": ");
                text.append(why.as_str());
                text
            },
            StorageError::Other(why) => why.clone(),
        }
    }
}

/// What the library asks of a store that can be read.
///
/// A store is a map from keys to byte sequences. A key may be absent: that is
/// an answer, not an error. A store is *reliable* where its operations never
/// fail for reasons of its own; a store in memory is, a store behind a
/// network is not.
///
/// Of a store that is not verified it is taken on trust that it behaves as a
/// map; nothing is known of what it holds, and it does not count as reliable.
/// The objects of a store are described as part of its value: of a store
/// whose objects live elsewhere, as files do, what is proved holds only as
/// long as nothing else changes them.
pub trait ReadableStorageTraits: Sized {
    /// The objects of the store by key.
    open spec fn contents(&self) -> Map<Seq<char>, Seq<u8>> {
        arbitrary::<spec_fn(Self) -> Map<Seq<char>, Seq<u8>>>()(*self)
    }

    /// Whether the store's operations never fail for reasons of its own.
    open spec fn reliable(&self) -> bool {
        false
    }

    /// The object under `key`, or `None` where the key is absent.
    fn get(&self, key: &StoreKey) -> (found: Result<Option<Vec<u8>>, StorageError>)
        ensures
            found matches Ok(Some(bytes)) ==> self.contents().contains_key(key@)
                && self.contents()[key@] == bytes@,
            found matches Ok(None) ==> !self.contents().contains_key(key@),
            self.reliable() ==> found is Ok,
    ;

    /// The requested ranges of the object under `key`, one buffer per range
    /// in the order of the request, or `None` where the key is absent.
    fn get_partial_values_key(&self, key: &StoreKey, byte_ranges: &[ByteRange]) -> (found: Result<
        Option<Vec<Vec<u8>>>,
        StorageError,
    >)
        ensures
            found matches Ok(None) ==> !self.contents().contains_key(key@),
            found matches Ok(Some(parts)) ==> self.contents().contains_key(key@) && all_valid(
                byte_ranges@,
                self.contents()[key@].len() as u64,
            ) && buffers_view(parts@) == spec_extract_byte_ranges(
                self.contents()[key@],
                byte_ranges@,
            ),
            self.reliable() ==> spec_partial_values(
                spec_object(self.contents(), key@),
                byte_ranges@,
                found,
            ),
    ;
}

/// The object that a store with the objects `contents` holds under `key`, or
/// `None` where it holds none.
pub open spec fn spec_object(contents: Map<Seq<char>, Seq<u8>>, key: Seq<char>) -> Option<Seq<u8>> {
    if contents.contains_key(key) {
        Some(contents[key])
    } else {
        None
    }
}

/// What asking for the ranges `byte_ranges` of an object comes to, where
/// `object` is the object or `None` for an absent key: `None` for an absent
/// key; the ranges, one buffer per range in the order of the request, where
/// every range fits the object; and the error that names the first range that
/// does not fit, where one does not.
pub open spec fn spec_partial_values(
    object: Option<Seq<u8>>,
    byte_ranges: Seq<ByteRange>,
    found: Result<Option<Vec<Vec<u8>>>, StorageError>,
) -> bool {
    match object {
        None => found matches Ok(None),
        Some(bytes) => if all_valid(byte_ranges, bytes.len() as u64) {
            found matches Ok(Some(parts)) && buffers_view(parts@) == spec_extract_byte_ranges(
                bytes,
                byte_ranges,
            )
        } else {
            match found {
                Err(StorageError::InvalidByteRangeError(e)) => exists|i: int|
                    first_invalid(byte_ranges, bytes.len() as u64, i) && e == (
                    InvalidByteRangeError {
                        byte_range: byte_ranges[i],
                        bytes_len: bytes.len() as u64,
                    }),
                _ => false,
            }
        },
    }
}

/// Serves the ranges `byte_ranges` from an object that was fetched whole:
/// `object` is the object, or `None` for an absent key. This is how a store
/// that cannot fetch in part answers a request for ranges.
pub fn partial_values_of(object: Option<Vec<u8>>, byte_ranges: &[ByteRange]) -> (found: Result<
    Option<Vec<Vec<u8>>>,
    StorageError,
>)
    ensures
        spec_partial_values(
            match object {
                Some(bytes) => Some(bytes@),
                None => None,
            },
            byte_ranges@,
            found,
        ),
{
    match object {
        Some(bytes) => match extract_byte_ranges(bytes.as_slice(), byte_ranges) {
            Ok(parts) => Ok(Some(parts)),
            Err(e) => Err(StorageError::InvalidByteRangeError(e)),
        },
        None => Ok(None),
    }
}

/// What the library asks of a store that can be written.
pub trait WritableStorageTraits: ReadableStorageTraits {
    /// Puts `value` under `key`, in place of what was there.
    fn set(&mut self, key: &StoreKey, value: &[u8]) -> (done: Result<(), StorageError>)
        ensures
            done is Ok ==> final(self).contents() == old(self).contents().insert(key@, value@),
            done is Err ==> final(self).contents() == old(self).contents(),
            final(self).reliable() == old(self).reliable(),
            old(self).reliable() ==> done is Ok,
    ;

    /// Removes `key`. Removing an absent key succeeds.
    fn erase(&mut self, key: &StoreKey) -> (done: Result<(), StorageError>)
        ensures
            done is Ok ==> final(self).contents() == old(self).contents().remove(key@),
            done is Err ==> final(self).contents() == old(self).contents(),
            final(self).reliable() == old(self).reliable(),
            old(self).reliable() ==> done is Ok,
    ;
}

/// Whether some entry of `entries` has the key `key`.
pub open spec fn spec_has_key(entries: Seq<(String, Vec<u8>)>, key: Seq<char>) -> bool {
    exists|i: int| 0 <= i < entries.len() && (#[trigger] entries[i]).0@ == key
}

/// The place of an entry of `entries` with the key `key`.
pub open spec fn spec_index_of(entries: Seq<(String, Vec<u8>)>, key: Seq<char>) -> int {
    choose|i: int| 0 <= i < entries.len() && (#[trigger] entries[i]).0@ == key
}

/// Whether no two entries of `entries` have the same key.
pub open spec fn spec_unique_keys(entries: Seq<(String, Vec<u8>)>) -> bool {
    forall|i: int, j: int|
        0 <= i < j < entries.len() ==> (#[trigger] entries[i]).0@ != (#[trigger] entries[j]).0@
}

/// The map that a list of entries with distinct keys stands for.
pub open spec fn spec_entries_map(entries: Seq<(String, Vec<u8>)>) -> Map<Seq<char>, Seq<u8>> {
    Map::new(
        |key: Seq<char>| spec_has_key(entries, key),
        |key: Seq<char>| entries[spec_index_of(entries, key)].1@,
    )
}

/// With distinct keys, the entry at `i` is what the map holds under its key.
pub proof fn lemma_entry_in_map(entries: Seq<(String, Vec<u8>)>, i: int)
    requires
        spec_unique_keys(entries),
        0 <= i < entries.len(),
    ensures
        spec_entries_map(entries).contains_key(entries[i].0@),
        spec_entries_map(entries)[entries[i].0@] == entries[i].1@,
        spec_index_of(entries, entries[i].0@) == i,
{
    let key = entries[i].0@;
    assert(spec_has_key(entries, key));
    let j = spec_index_of(entries, key);
    assert(0 <= j < entries.len() && entries[j].0@ == key);
    if j != i {
        if j < i {
            assert(entries[j].0@ != entries[i].0@);
        } else {
            assert(entries[i].0@ != entries[j].0@);
        }
    }
}

/// A store in memory. It is reliable: its operations never fail.
#[derive(Debug)]
pub struct MemoryStore {
    entries: Vec<(String, Vec<u8>)>,
}

impl Clone for MemoryStore {
    fn clone(&self) -> (copy: Self)
        ensures
            copy.spec_map() == self.spec_map(),
    {
        proof {
            use_type_invariant(self);
        }
        let mut entries: Vec<(String, Vec<u8>)> = Vec::new();
        let mut i: usize = 0;
        while i < self.entries.len()
            invariant
                i <= self.entries@.len(),
                entries@.len() == i,
                forall|k: int|
                    0 <= k < i ==> (#[trigger] entries@[k]).0@ == self.entries@[k].0@
                        && entries@[k].1@ == self.entries@[k].1@,
            decreases self.entries@.len() - i,
        {
            let entry = &self.entries[i];
            entries.push((entry.0.clone(), copy_range(entry.1.as_slice(), 0, entry.1.len())));
            i += 1;
        }
        proof {
            let ours = self.entries@;
            assert forall|a: int, b: int| 0 <= a < b < entries@.len() implies (
            #[trigger] entries@[a]).0@ != (#[trigger] entries@[b]).0@ by {
                assert(ours[a].0@ != ours[b].0@);
            }
            assert forall|a: int| 0 <= a < entries@.len() implies spec_entries_map(
                ours,
            ).contains_key((#[trigger] entries@[a]).0@) && spec_entries_map(ours)[entries@[a].0@]
                == entries@[a].1@ by {
                lemma_entry_in_map(ours, a);
            }
            assert forall|q: Seq<char>| #[trigger]
                spec_entries_map(ours).contains_key(q) implies spec_has_key(entries@, q) by {
                let a = spec_index_of(ours, q);
                assert(entries@[a].0@ == q);
            }
            lemma_entries_map_is(entries@, spec_entries_map(ours));
        }
        MemoryStore { entries }
    }
}

impl MemoryStore {
    #[verifier::type_invariant]
    spec fn distinct_keys(self) -> bool {
        spec_unique_keys(self.entries@)
    }

    /// The objects of the store by key.
    pub closed spec fn spec_map(&self) -> Map<Seq<char>, Seq<u8>> {
        spec_entries_map(self.entries@)
    }

    /// An empty store.
    pub fn new() -> (store: MemoryStore)
        ensures
            store.spec_map() == Map::<Seq<char>, Seq<u8>>::empty(),
    {
        let store = MemoryStore { entries: Vec::new() };
        assert(store.spec_map() =~= Map::<Seq<char>, Seq<u8>>::empty());
        store
    }

    /// Moves the entries out of the store, which is left empty.
    fn take_entries(&mut self) -> (entries: Vec<(String, Vec<u8>)>)
        ensures
            entries@ == old(self).entries@,
    {
        let mut taken = MemoryStore { entries: Vec::new() };
        std::mem::swap(self, &mut taken);
        taken.entries
    }

    /// Makes `entries` the entries of the store.
    fn put_entries(&mut self, entries: Vec<(String, Vec<u8>)>)
        requires
            spec_unique_keys(entries@),
        ensures
            final(self).entries@ == entries@,
    {
        let mut rebuilt = MemoryStore { entries };
        std::mem::swap(self, &mut rebuilt);
    }

    /// The place of the entry under `key`, if there is one.
    fn find(&self, key: &str) -> (place: Option<usize>)
        ensures
            place matches Some(i) ==> i < self.entries@.len() && self.entries@[i as int].0@
                == key@,
            place is None ==> !spec_has_key(self.entries@, key@),
    {
        let mut i: usize = 0;
        while i < self.entries.len()
            invariant
                i <= self.entries@.len(),
                forall|k: int| 0 <= k < i ==> (#[trigger] self.entries@[k]).0@ != key@,
            decreases self.entries@.len() - i,
        {
            if str_eq(self.entries[i].0.as_str(), key) {
                return Some(i);
            }
            i += 1;
        }
        None
    }

    /// The number of objects in the store.
    pub fn len(&self) -> (count: usize)
        ensures
            count == self.spec_map().dom().len(),
    {
        proof {
            use_type_invariant(self);
            lemma_entries_count(self.entries@);
        }
        self.entries.len()
    }
}

/// A list of entries with distinct keys stands for a map of as many keys.
pub proof fn lemma_entries_count(entries: Seq<(String, Vec<u8>)>)
    requires
        spec_unique_keys(entries),
    ensures
        spec_entries_map(entries).dom().finite(),
        spec_entries_map(entries).dom().len() == entries.len(),
    decreases entries.len(),
{
    let dom = spec_entries_map(entries).dom();
    if entries.len() == 0 {
        assert(dom =~= Set::<Seq<char>>::empty());
    } else {
        let rest = entries.drop_last();
        let last = entries.last();
        assert forall|i: int, j: int| 0 <= i < j < rest.len() implies (#[trigger] rest[i]).0@ != (
        #[trigger] rest[j]).0@ by {
            assert(entries[i].0@ != entries[j].0@);
        }
        lemma_entries_count(rest);
        let rest_dom = spec_entries_map(rest).dom();
        assert(!rest_dom.contains(last.0@)) by {
            if spec_has_key(rest, last.0@) {
                let i = spec_index_of(rest, last.0@);
                assert(entries[i].0@ != entries[entries.len() - 1].0@);
            }
        }
        assert(dom =~= rest_dom.insert(last.0@)) by {
            assert forall|key: Seq<char>| dom.contains(key) <==> rest_dom.insert(last.0@).contains(
                key,
            ) by {
                if spec_has_key(entries, key) {
                    let i = spec_index_of(entries, key);
                    if i < rest.len() {
                        assert(rest[i].0@ == key);
                    }
                }
                if spec_has_key(rest, key) {
                    let i = spec_index_of(rest, key);
                    assert(entries[i].0@ == key);
                }
                if key == last.0@ {
                    assert(entries[entries.len() - 1].0@ == key);
                }
            }
        }
    }
}

/// The map of a list of entries with distinct keys is the map `m` where `m`
/// holds every entry under its key and no other key.
pub proof fn lemma_entries_map_is(entries: Seq<(String, Vec<u8>)>, m: Map<Seq<char>, Seq<u8>>)
    requires
        spec_unique_keys(entries),
        forall|i: int|
            0 <= i < entries.len() ==> m.contains_key((#[trigger] entries[i]).0@) && m[entries[i].0@]
                == entries[i].1@,
        forall|key: Seq<char>| #[trigger] m.contains_key(key) ==> spec_has_key(entries, key),
    ensures
        spec_entries_map(entries) == m,
{
    let built = spec_entries_map(entries);
    assert forall|key: Seq<char>| built.contains_key(key) <==> m.contains_key(key) by {
        if spec_has_key(entries, key) {
            let i = spec_index_of(entries, key);
            assert(m.contains_key(entries[i].0@));
        }
    }
    assert forall|key: Seq<char>| built.contains_key(key) implies built[key] == m[key] by {
        let i = spec_index_of(entries, key);
        assert(m[entries[i].0@] == entries[i].1@);
    }
    assert(built =~= m);
}

impl ReadableStorageTraits for MemoryStore {
    open spec fn contents(&self) -> Map<Seq<char>, Seq<u8>> {
        self.spec_map()
    }

    open spec fn reliable(&self) -> bool {
        true
    }

    fn get(&self, key: &StoreKey) -> (found: Result<Option<Vec<u8>>, StorageError>) {
        proof {
            use_type_invariant(self);
        }
        match self.find(key.as_str()) {
            Some(i) => {
                proof {
                    lemma_entry_in_map(self.entries@, i as int);
                }
                let value = &self.entries[i].1;
                Ok(Some(copy_range(value.as_slice(), 0, value.len())))
            },
            None => Ok(None),
        }
    }

    fn get_partial_values_key(&self, key: &StoreKey, byte_ranges: &[ByteRange]) -> (found: Result<
        Option<Vec<Vec<u8>>>,
        StorageError,
    >) {
        proof {
            use_type_invariant(self);
        }
        match self.get(key) {
            Ok(object) => partial_values_of(object, byte_ranges),
            Err(e) => Err(e),
        }
    }
}

impl WritableStorageTraits for MemoryStore {
    fn set(&mut self, key: &StoreKey, value: &[u8]) -> (done: Result<(), StorageError>) {
        proof {
            use_type_invariant(&*self);
        }
        let ghost before = self.entries@;
        let ghost goal = spec_entries_map(before).insert(key@, value@);
        let entry = (String::from_str(key.as_str()), copy_range(value, 0, value.len()));
        match self.find(key.as_str()) {
            Some(i) => {
                let mut entries = self.take_entries();
                entries.set(i, entry);
                proof {
                    let after = entries@;
                    assert forall|a: int, b: int| 0 <= a < b < after.len() implies (
                    #[trigger] after[a]).0@ != (#[trigger] after[b]).0@ by {
                        assert(before[a].0@ != before[b].0@);
                    }
                    assert forall|a: int| 0 <= a < after.len() implies goal.contains_key(
                        (#[trigger] after[a]).0@,
                    ) && goal[after[a].0@] == after[a].1@ by {
                        lemma_entry_in_map(before, a);
                        if a != i {
                            if a < i {
                                assert(before[a].0@ != before[i as int].0@);
                            } else {
                                assert(before[i as int].0@ != before[a].0@);
                            }
                        }
                    }
                    assert forall|q: Seq<char>| #[trigger] goal.contains_key(q) implies spec_has_key(
                        after,
                        q,
                    ) by {
                        if q == key@ {
                            assert(after[i as int].0@ == q);
                        } else {
                            let a = spec_index_of(before, q);
                            assert(after[a].0@ == q);
                        }
                    }
                    lemma_entries_map_is(after, goal);
                }
                self.put_entries(entries);
            },
            None => {
                let mut entries = self.take_entries();
                entries.push(entry);
                proof {
                    let after = entries@;
                    let last = after.len() - 1;
                    assert forall|a: int, b: int| 0 <= a < b < after.len() implies (
                    #[trigger] after[a]).0@ != (#[trigger] after[b]).0@ by {
                        if b < last {
                            assert(before[a].0@ != before[b].0@);
                        } else {
                            assert(before[a].0@ != key@);
                        }
                    }
                    assert forall|a: int| 0 <= a < after.len() implies goal.contains_key(
                        (#[trigger] after[a]).0@,
                    ) && goal[after[a].0@] == after[a].1@ by {
                        if a < last {
                            lemma_entry_in_map(before, a);
                            assert(before[a].0@ != key@);
                        }
                    }
                    assert forall|q: Seq<char>| #[trigger] goal.contains_key(q) implies spec_has_key(
                        after,
                        q,
                    ) by {
                        if q == key@ {
                            assert(after[last].0@ == q);
                        } else {
                            let a = spec_index_of(before, q);
                            assert(after[a].0@ == q);
                        }
                    }
                    lemma_entries_map_is(after, goal);
                }
                self.put_entries(entries);
            },
        }
        Ok(())
    }

    fn erase(&mut self, key: &StoreKey) -> (done: Result<(), StorageError>) {
        proof {
            use_type_invariant(&*self);
        }
        let ghost before = self.entries@;
        let ghost goal = spec_entries_map(before).remove(key@);
        match self.find(key.as_str()) {
            Some(i) => {
                let mut entries = self.take_entries();
                entries.remove(i);
                proof {
                    let after = entries@;
                    assert forall|a: int| 0 <= a < after.len() implies #[trigger] after[a] == (if a
                        < i {
                        before[a]
                    } else {
                        before[a + 1]
                    }) by {}
                    assert forall|a: int, b: int| 0 <= a < b < after.len() implies (
                    #[trigger] after[a]).0@ != (#[trigger] after[b]).0@ by {
                        let a0 = if a < i { a } else { a + 1 };
                        let b0 = if b < i { b } else { b + 1 };
                        assert(before[a0].0@ != before[b0].0@);
                    }
                    assert forall|a: int| 0 <= a < after.len() implies goal.contains_key(
                        (#[trigger] after[a]).0@,
                    ) && goal[after[a].0@] == after[a].1@ by {
                        let a0 = if a < i { a } else { a + 1 };
                        lemma_entry_in_map(before, a0);
                        if a0 < i {
                            assert(before[a0].0@ != before[i as int].0@);
                        } else {
                            assert(before[i as int].0@ != before[a0].0@);
                        }
                    }
                    assert forall|q: Seq<char>| #[trigger] goal.contains_key(q) implies spec_has_key(
                        after,
                        q,
                    ) by {
                        let a0 = spec_index_of(before, q);
                        let a = if a0 < i { a0 } else { a0 - 1 };
                        assert(after[a].0@ == q);
                    }
                    lemma_entries_map_is(after, goal);
                }
                self.put_entries(entries);
            },
            None => {
                proof {
                    assert(goal =~= spec_entries_map(before));
                }
            },
        }
        Ok(())
    }
}

} // verus!
