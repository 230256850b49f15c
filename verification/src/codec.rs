//! Partial decoders: handles that serve byte ranges of a chunk's decoded
//! bytes. The handle at the bottom of a chain reads a store; each handle above
//! it undoes one codec.

use crate::blosc::spec_header;
use crate::blosc_blocks::{
    blosc_decompress, blosc_decompress_range, blosc_layout, law_range_is_slice_of_decoded,
    spec_decoded, spec_first_failure, spec_layout_ok, spec_range, BlockDecompressor, BloscError,
};
use crate::byte_range::{
    all_valid, buffers_view, first_invalid, spec_byte_range_text, spec_extract_byte_ranges,
    validate_byte_ranges, ByteRange, InvalidByteRangeError,
};
use crate::storage::{ReadableStorageTraits, StorageError, StoreKey};
use crate::text::spec_decimal;
use vstd::prelude::*;
use vstd::string::*;

verus! {

/// Why decoding failed.
#[derive(Debug, PartialEq, Eq)]
pub enum CodecError {
    /// The store failed.
    StorageError(StorageError),
    /// A requested byte range does not fit the decoded bytes.
    InvalidByteRangeError(InvalidByteRangeError),
    /// A block of a Blosc container did not decode.
    BloscError(BloscError),
    /// Any other failure, in words.
    Other(String),
}

impl CodecError {
    /// The message of the error.
    pub open spec fn spec_text(&self) -> Seq<char> {
        match *self {
            CodecError::StorageError(e) => e.spec_text(),
            CodecError::InvalidByteRangeError(e) => "invalid byte range "@ + spec_byte_range_text(
                e.byte_range,
            ) + " for bytes of length "@ + spec_decimal(e.bytes_len as nat),
            CodecError::BloscError(e) => e.spec_text(),
            CodecError::Other(why) => why@,
        }
    }

    /// The message of the error.
    pub fn to_string(&self) -> (text: String)
        ensures
            text@ == self.spec_text(),
    {
        match self {
            CodecError::StorageError(e) => e.to_string(),
            CodecError::InvalidByteRangeError(e) => e.to_string(),
            CodecError::BloscError(e) => e.to_string(),
            CodecError::Other(why) => why.clone(),
        }
    }
}

/// Whether `error` says that an encoded value is no Blosc container that can
/// be decoded.
pub open spec fn spec_is_invalid_blosc(error: CodecError) -> bool {
    error matches CodecError::Other(why) && why@ == "blosc encoded value is invalid"@
}

/// Whether `served` holds the ranges `regions` of `bytes`, one buffer per
/// range in the order of the ranges.
pub open spec fn spec_serves(served: Seq<Vec<u8>>, bytes: Seq<u8>, regions: Seq<ByteRange>) -> bool {
    buffers_view(served) == spec_extract_byte_ranges(bytes, regions)
}

/// What a handle sits on: no chunk, a chunk that does not decode, or a chunk
/// with its decoded bytes.
pub enum DecodedChunk {
    /// The chunk is absent.
    Absent,
    /// The chunk is present and does not decode.
    Undecodable,
    /// The chunk is present, and these are its decoded bytes.
    Bytes(Seq<u8>),
}

/// A handle that serves byte ranges of the decoded bytes of one chunk.
///
/// The chunk may be absent: that is an answer, not an error. A handle is
/// reliable where nothing underneath it fails for reasons of its own. What a
/// call returns never depends on `parallel`.
///
/// Of a handle that is not verified it is taken on trust that it sits on one
/// chunk; nothing is known of that chunk, and the handle does not count as
/// reliable.
pub trait BytesPartialDecoderTraits: Sized {
    /// What the handle sits on.
    open spec fn spec_chunk(&self) -> DecodedChunk {
        arbitrary::<spec_fn(Self) -> DecodedChunk>()(*self)
    }

    /// Whether nothing underneath the handle fails for reasons of its own.
    open spec fn reliable(&self) -> bool {
        false
    }

    /// Serves the ranges `decoded_regions` of the decoded bytes: one buffer
    /// per range, in the order of the request, or `None` where the chunk is
    /// absent. A range that does not fit the decoded bytes fails the call.
    fn partial_decode_opt(&self, decoded_regions: &[ByteRange], parallel: bool) -> (served: Result<
        Option<Vec<Vec<u8>>>,
        CodecError,
    >)
        ensures
            served matches Ok(None) ==> self.spec_chunk() is Absent,
            served matches Ok(Some(parts)) ==> !(self.spec_chunk() is Absent) && parts@.len()
                == decoded_regions@.len(),
            served matches Ok(Some(parts)) ==> (self.spec_chunk() matches DecodedChunk::Bytes(bytes)
                ==> all_valid(decoded_regions@, bytes.len() as u64) && spec_serves(
                parts@,
                bytes,
                decoded_regions@,
            )),
            self.reliable() && self.spec_chunk() is Absent ==> served matches Ok(None),
            self.reliable() ==> (self.spec_chunk() matches DecodedChunk::Bytes(bytes) ==> (
            all_valid(decoded_regions@, bytes.len() as u64) ==> served matches Ok(Some(_)))),
            self.spec_chunk() matches DecodedChunk::Bytes(bytes) ==> (!all_valid(
                decoded_regions@,
                bytes.len() as u64,
            ) ==> served is Err),
    ;

    /// Decodes the whole chunk, or `None` where it is absent. A chunk that is
    /// present and does not decode fails the call.
    fn decode_opt(&self, parallel: bool) -> (decoded: Result<Option<Vec<u8>>, CodecError>)
        ensures
            decoded matches Ok(None) ==> self.spec_chunk() is Absent,
            decoded matches Ok(Some(bytes)) ==> self.spec_chunk() == DecodedChunk::Bytes(bytes@),
            self.reliable() && self.spec_chunk() is Absent ==> decoded matches Ok(None),
            self.reliable() && self.spec_chunk() is Bytes ==> decoded matches Ok(Some(_)),
            self.spec_chunk() is Undecodable ==> decoded is Err,
    ;
}

/// The handle at the bottom of a chain: it serves byte ranges of the object
/// that a store holds under one key.
pub struct StoragePartialDecoder<'a, S: ReadableStorageTraits> {
    storage: &'a S,
    key: StoreKey,
}

impl<'a, S: ReadableStorageTraits> StoragePartialDecoder<'a, S> {
    /// The store that the handle reads.
    pub closed spec fn spec_storage(&self) -> &S {
        self.storage
    }

    /// The key that the handle reads.
    pub closed spec fn spec_key(&self) -> Seq<char> {
        self.key@
    }

    /// A handle on the object under `key` in `storage`.
    pub fn new(storage: &'a S, key: StoreKey) -> (handle: Self)
        ensures
            handle.spec_storage() == storage,
            handle.spec_key() == key@,
    {
        StoragePartialDecoder { storage, key }
    }
}

impl<'a, S: ReadableStorageTraits> BytesPartialDecoderTraits for StoragePartialDecoder<'a, S> {
    open spec fn spec_chunk(&self) -> DecodedChunk {
        if self.spec_storage().contents().contains_key(self.spec_key()) {
            DecodedChunk::Bytes(self.spec_storage().contents()[self.spec_key()])
        } else {
            DecodedChunk::Absent
        }
    }

    open spec fn reliable(&self) -> bool {
        self.spec_storage().reliable()
    }

    fn partial_decode_opt(&self, decoded_regions: &[ByteRange], parallel: bool) -> (served: Result<
        Option<Vec<Vec<u8>>>,
        CodecError,
    >) {
        match self.storage.get_partial_values_key(&self.key, decoded_regions) {
            Ok(Some(parts)) => {
                assert(parts@.len() == buffers_view(parts@).len());
                Ok(Some(parts))
            },
            Ok(None) => Ok(None),
            Err(e) => Err(CodecError::StorageError(e)),
        }
    }

    fn decode_opt(&self, parallel: bool) -> (decoded: Result<Option<Vec<u8>>, CodecError>) {
        match self.storage.get(&self.key) {
            Ok(found) => Ok(found),
            Err(e) => Err(CodecError::StorageError(e)),
        }
    }
}

/// The bytes that `region` selects from the decoded form of the container
/// `encoded`, where the blocks that the region touches decode.
pub open spec fn spec_region_bytes<D: BlockDecompressor>(
    d: &D,
    encoded: Seq<u8>,
    region: ByteRange,
) -> Option<Seq<u8>> {
    let nbytes = spec_header(encoded)->0.nbytes as u64;
    spec_range(d, encoded, region.spec_start(nbytes), region.spec_end(nbytes))
}

/// Whether every region of `regions` can be served from `encoded`.
pub open spec fn spec_regions_decode<D: BlockDecompressor>(
    d: &D,
    encoded: Seq<u8>,
    regions: Seq<ByteRange>,
) -> bool {
    forall|i: int| 0 <= i < regions.len() ==> spec_region_bytes(d, encoded, #[trigger] regions[i]) is Some
}

/// What serving `regions` from the Blosc container `encoded` comes to.
///
/// The container is judged before any range is looked at: an encoded value
/// that is no container that can be decoded fails the call whatever the
/// ranges are. Then every range is checked against the decoded length: the
/// first range that does not fit fails the call. Then each range is decoded
/// from the blocks it touches, and from no others: the buffers come in the
/// order of the ranges, and a block that does not decode fails the whole
/// call with its index.
pub open spec fn spec_blosc_served<D: BlockDecompressor>(
    d: &D,
    encoded: Seq<u8>,
    regions: Seq<ByteRange>,
    served: Result<Vec<Vec<u8>>, CodecError>,
) -> bool {
    let nbytes = spec_header(encoded)->0.nbytes as u64;
    if !spec_layout_ok(encoded) {
        served matches Err(e) && spec_is_invalid_blosc(e)
    } else if !all_valid(regions, nbytes) {
        match served {
            Err(CodecError::InvalidByteRangeError(e)) => exists|i: int|
                first_invalid(regions, nbytes, i) && e == (InvalidByteRangeError {
                    byte_range: regions[i],
                    bytes_len: nbytes,
                }),
            _ => false,
        }
    } else if !spec_regions_decode(d, encoded, regions) {
        match served {
            Err(CodecError::BloscError(BloscError::BlockFailed(j))) => exists|i: int|
                0 <= i < regions.len() && spec_regions_decode(d, encoded, #[trigger] regions.take(i))
                    && spec_first_failure(
                    d,
                    encoded,
                    regions[i].spec_start(nbytes),
                    regions[i].spec_end(nbytes),
                    j as int,
                ),
            _ => false,
        }
    } else {
        served matches Ok(parts) && parts@.len() == regions.len() && forall|i: int|
            0 <= i < parts@.len() ==> Some((#[trigger] parts@[i])@) == spec_region_bytes(
                d,
                encoded,
                regions[i],
            )
    }
}

/// Serves the byte ranges `decoded_regions` of the decoded form of the Blosc
/// container `encoded`.
pub fn blosc_partial_decode<D: BlockDecompressor>(
    d: &D,
    encoded: &[u8],
    decoded_regions: &[ByteRange],
) -> (served: Result<Vec<Vec<u8>>, CodecError>)
    ensures
        spec_blosc_served(d, encoded@, decoded_regions@, served),
{
    let h = match blosc_layout(encoded) {
        Some(h) => h,
        None => {
            return Err(CodecError::Other(String::from_str("blosc encoded value is invalid")));
        },
    };
    let nbytes: u64 = h.nbytes as u64;
    match validate_byte_ranges(decoded_regions, nbytes) {
        Err(e) => {
            return Err(CodecError::InvalidByteRangeError(e));
        },
        Ok(()) => {},
    }
    let mut parts: Vec<Vec<u8>> = Vec::new();
    let mut i: usize = 0;
    while i < decoded_regions.len()
        invariant
            i <= decoded_regions.len(),
            spec_layout_ok(encoded@),
            spec_header(encoded@) == Some(h),
            nbytes == h.nbytes,
            all_valid(decoded_regions@, nbytes),
            parts@.len() == i,
            forall|k: int|
                0 <= k < i ==> Some((#[trigger] parts@[k])@) == spec_region_bytes(
                    d,
                    encoded@,
                    decoded_regions@[k],
                ),
        decreases decoded_regions.len() - i,
    {
        let region = decoded_regions[i];
        assert(decoded_regions@[i as int].spec_is_valid(nbytes));
        let start = region.start(nbytes);
        let end = region.end(nbytes);
        match blosc_decompress_range(d, encoded, start as usize, end as usize) {
            Ok(bytes) => {
                parts.push(bytes);
            },
            Err(e) => {
                proof {
                    let done = decoded_regions@.take(i as int);
                    assert(spec_region_bytes(d, encoded@, decoded_regions@[i as int]) is None);
                    assert forall|k: int| 0 <= k < done.len() implies spec_region_bytes(
                        d,
                        encoded@,
                        #[trigger] done[k],
                    ) is Some by {
                        assert(Some(parts@[k]@) == spec_region_bytes(
                            d,
                            encoded@,
                            decoded_regions@[k],
                        ));
                    }
                }
                return Err(CodecError::BloscError(e));
            },
        }
        i += 1;
    }
    proof {
        assert forall|k: int| 0 <= k < decoded_regions@.len() implies spec_region_bytes(
            d,
            encoded@,
            #[trigger] decoded_regions@[k],
        ) is Some by {
            assert(Some(parts@[k]@) == spec_region_bytes(d, encoded@, decoded_regions@[k]));
        }
    }
    Ok(parts)
}

/// Equivalence of partial and full decoding, and order of the answers: where
/// the whole container decodes and every requested range fits its decoded
/// bytes, serving the ranges succeeds, and the buffer at each place is the
/// slice of the whole decoded bytes at the range of that place.
pub proof fn law_partial_decode_is_slice_of_full<D: BlockDecompressor>(
    d: &D,
    encoded: Seq<u8>,
    regions: Seq<ByteRange>,
    served: Result<Vec<Vec<u8>>, CodecError>,
)
    requires
        spec_layout_ok(encoded),
        spec_decoded(d, encoded) is Some,
        all_valid(regions, spec_header(encoded)->0.nbytes as u64),
        spec_blosc_served(d, encoded, regions, served),
    ensures
        spec_decoded(d, encoded)->0.len() == spec_header(encoded)->0.nbytes,
        served matches Ok(parts) && spec_serves(parts@, spec_decoded(d, encoded)->0, regions),
{
    let nbytes = spec_header(encoded)->0.nbytes as u64;
    let full = spec_decoded(d, encoded)->0;
    assert forall|k: int| 0 <= k < regions.len() implies spec_region_bytes(
        d,
        encoded,
        #[trigger] regions[k],
    ) == Some(regions[k].spec_extract(full)) by {
        let region = regions[k];
        assert(region.spec_is_valid(nbytes));
        law_range_is_slice_of_decoded(
            d,
            encoded,
            region.spec_start(nbytes),
            region.spec_end(nbytes),
        );
    }
    let parts = served->Ok_0;
    assert(buffers_view(parts@) =~= spec_extract_byte_ranges(full, regions));
}

/// Order of the answers: the buffer at a place of the answer to a request is
/// the buffer that answers the range at that place alone.
pub proof fn law_answer_at_place_answers_its_range<D: BlockDecompressor>(
    d: &D,
    encoded: Seq<u8>,
    regions: Seq<ByteRange>,
    parts: Vec<Vec<u8>>,
    place: int,
    alone: Vec<Vec<u8>>,
)
    requires
        0 <= place < regions.len(),
        spec_blosc_served(d, encoded, regions, Ok::<Vec<Vec<u8>>, CodecError>(parts)),
        spec_blosc_served(d, encoded, seq![regions[place]], Ok::<Vec<Vec<u8>>, CodecError>(alone)),
    ensures
        parts@.len() == regions.len(),
        alone@.len() == 1,
        parts@[place]@ == alone@[0]@,
{
    let nbytes = spec_header(encoded)->0.nbytes as u64;
    let one = seq![regions[place]];
    assert(regions[place].spec_is_valid(nbytes));
    assert(all_valid(one, nbytes));
    assert(spec_region_bytes(d, encoded, regions[place]) is Some);
    assert forall|k: int| 0 <= k < one.len() implies spec_region_bytes(
        d,
        encoded,
        #[trigger] one[k],
    ) is Some by {
        assert(one[k] == regions[place]);
    }
    assert(Some(parts@[place]@) == spec_region_bytes(d, encoded, regions[place]));
    assert(Some(alone@[0]@) == spec_region_bytes(d, encoded, one[0]));
}

/// Validation before service: an encoded value that is no container that can
/// be decoded is refused whatever is asked of it, also where nothing is.
pub proof fn law_invalid_container_is_refused<D: BlockDecompressor>(
    d: &D,
    encoded: Seq<u8>,
    regions: Seq<ByteRange>,
    served: Result<Vec<Vec<u8>>, CodecError>,
)
    requires
        !spec_layout_ok(encoded),
        spec_blosc_served(d, encoded, regions, served),
    ensures
        served matches Err(e) && spec_is_invalid_blosc(e),
{
}

/// What follows the fetch of the encoded value in a Blosc partial decoder,
/// whether the fetch blocked or was awaited: a failed fetch is handed on, an
/// absent chunk is absent, and an encoded value is served as
/// [`blosc_partial_decode`] serves it.
pub fn blosc_partial_decode_fetched<D: BlockDecompressor>(
    d: &D,
    fetched: Result<Option<Vec<u8>>, CodecError>,
    decoded_regions: &[ByteRange],
) -> (served: Result<Option<Vec<Vec<u8>>>, CodecError>)
    ensures
        fetched matches Err(e) ==> served == Err::<Option<Vec<Vec<u8>>>, CodecError>(e),
        fetched matches Ok(None) ==> served matches Ok(None),
        fetched matches Ok(Some(encoded)) ==> (match served {
            Ok(Some(parts)) => spec_blosc_served(
                d,
                encoded@,
                decoded_regions@,
                Ok::<Vec<Vec<u8>>, CodecError>(parts),
            ),
            Ok(None) => false,
            Err(e) => spec_blosc_served(
                d,
                encoded@,
                decoded_regions@,
                Err::<Vec<Vec<u8>>, CodecError>(e),
            ),
        }),
{
    match fetched {
        Err(e) => Err(e),
        Ok(None) => Ok(None),
        Ok(Some(encoded)) => match blosc_partial_decode(d, encoded.as_slice(), decoded_regions) {
            Ok(parts) => Ok(Some(parts)),
            Err(e) => Err(e),
        },
    }
}

/// What decoding the whole of the Blosc container `encoded` comes to: an
/// encoded value that is no container that can be decoded is refused; a
/// block that does not decode fails the call with its index; otherwise the
/// decoded bytes come back.
pub open spec fn spec_blosc_decoded_whole<D: BlockDecompressor>(
    d: &D,
    encoded: Seq<u8>,
    decoded: Result<Vec<u8>, CodecError>,
) -> bool {
    if !spec_layout_ok(encoded) {
        decoded matches Err(e) && spec_is_invalid_blosc(e)
    } else {
        match spec_decoded(d, encoded) {
            Some(bytes) => decoded matches Ok(v) && v@ == bytes,
            None => match decoded {
                Err(CodecError::BloscError(BloscError::BlockFailed(j))) => spec_first_failure(
                    d,
                    encoded,
                    0,
                    spec_header(encoded)->0.nbytes as int,
                    j as int,
                ),
                _ => false,
            },
        }
    }
}

/// Decodes the whole of the Blosc container `encoded`.
pub fn blosc_decode<D: BlockDecompressor>(d: &D, encoded: &[u8]) -> (decoded: Result<
    Vec<u8>,
    CodecError,
>)
    ensures
        spec_blosc_decoded_whole(d, encoded@, decoded),
{
    match blosc_decompress(d, encoded) {
        Ok(bytes) => Ok(bytes),
        Err(BloscError::InvalidContainer) => Err(
            CodecError::Other(String::from_str("blosc encoded value is invalid")),
        ),
        Err(e) => Err(CodecError::BloscError(e)),
    }
}

/// What follows the fetch of the encoded value where the whole chunk is
/// asked for, whether the fetch blocked or was awaited: a failed fetch is
/// handed on, an absent chunk is absent, and an encoded value is decoded as
/// [`blosc_decode`] decodes it.
pub fn blosc_decode_fetched<D: BlockDecompressor>(
    d: &D,
    fetched: Result<Option<Vec<u8>>, CodecError>,
) -> (decoded: Result<Option<Vec<u8>>, CodecError>)
    ensures
        fetched matches Err(e) ==> decoded == Err::<Option<Vec<u8>>, CodecError>(e),
        fetched matches Ok(None) ==> decoded matches Ok(None),
        fetched matches Ok(Some(encoded)) ==> (match decoded {
            Ok(Some(bytes)) => spec_blosc_decoded_whole(
                d,
                encoded@,
                Ok::<Vec<u8>, CodecError>(bytes),
            ),
            Ok(None) => false,
            Err(e) => spec_blosc_decoded_whole(d, encoded@, Err::<Vec<u8>, CodecError>(e)),
        }),
{
    match fetched {
        Err(e) => Err(e),
        Ok(None) => Ok(None),
        Ok(Some(encoded)) => match blosc_decode(d, encoded.as_slice()) {
            Ok(bytes) => Ok(Some(bytes)),
            Err(e) => Err(e),
        },
    }
}

} // verus!
