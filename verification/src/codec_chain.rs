//! The codec pipeline: the ordered stages that turn the bytes of a chunk into
//! the bytes that are stored, and back.
//!
//! A pipeline has stages that work on arrays, one stage that turns an array
//! into bytes, and then stages that turn bytes into bytes. The stages on
//! arrays belong to the layer above; this module holds the stages on bytes,
//! which run in order on encoding and in reverse on decoding.

use crate::blosc::{spec_header, BLOSC_MAX_BUFFERSIZE};
use crate::blosc_blocks::{
    spec_decoded, spec_layout_ok, BlockDecompressor, BloscError, NoCompression,
};
use crate::blosc_partial_decoder::spec_blosc_decoded;
use crate::blosc_stored::{blosc_compress_stored, law_round_trip, spec_stored_container};
use crate::byte_range::{all_valid, ByteRange};
use crate::codec::{
    blosc_decode, blosc_partial_decode, law_partial_decode_is_slice_of_full, spec_serves,
    CodecError,
};
use crate::storage::{ReadableStorageTraits, StoreKey};
use vstd::prelude::*;

verus! {

/// A codec that turns bytes into bytes.
///
/// `spec_encode` and `spec_decode` say what the codec makes of a buffer, or
/// `None` where it refuses it. What a call returns never depends on
/// `parallel`.
///
/// Of a codec that is not verified it is taken on trust that it encodes and
/// decodes a buffer the same way every time; nothing else is known of it.
pub trait BytesToBytesCodecTraits: Sized {
    /// The encoded form of `decoded`, unless the codec refuses it.
    open spec fn spec_encode(&self, decoded: Seq<u8>) -> Option<Seq<u8>> {
        arbitrary::<spec_fn(Self, Seq<u8>) -> Option<Seq<u8>>>()(*self, decoded)
    }

    /// The decoded form of `encoded`, unless the codec refuses it.
    open spec fn spec_decode(&self, encoded: Seq<u8>) -> Option<Seq<u8>> {
        arbitrary::<spec_fn(Self, Seq<u8>) -> Option<Seq<u8>>>()(*self, encoded)
    }

    /// Encodes `decoded_value`.
    fn encode_opt(&self, decoded_value: Vec<u8>, parallel: bool) -> (encoded: Result<
        Vec<u8>,
        CodecError,
    >)
        ensures
            match self.spec_encode(decoded_value@) {
                Some(bytes) => encoded matches Ok(v) && v@ == bytes,
                None => encoded is Err,
            },
    ;

    /// Decodes `encoded_value`.
    fn decode_opt(&self, encoded_value: Vec<u8>, parallel: bool) -> (decoded: Result<
        Vec<u8>,
        CodecError,
    >)
        ensures
            match self.spec_decode(encoded_value@) {
                Some(bytes) => decoded matches Ok(v) && v@ == bytes,
                None => decoded is Err,
            },
    ;

    /// Serves the ranges `decoded_regions` of the decoded form of
    /// `encoded_value`, one buffer per range in the order of the ranges. A
    /// codec that cannot decode in part decodes the whole and cuts it.
    fn partial_decode_opt(
        &self,
        encoded_value: &[u8],
        decoded_regions: &[ByteRange],
        parallel: bool,
    ) -> (served: Result<Vec<Vec<u8>>, CodecError>)
        ensures
            self.spec_decode(encoded_value@) matches Some(bytes) ==> (if all_valid(
                decoded_regions@,
                bytes.len() as u64,
            ) {
                served matches Ok(parts) && spec_serves(parts@, bytes, decoded_regions@)
            } else {
                served is Err
            }),
    ;
}

/// The Blosc codec. It writes stored containers, and reads every container
/// whose compressed blocks its decompressor decodes.
pub struct BloscCodec<D> {
    typesize: u8,
    decompressor: D,
}

impl<D> BloscCodec<D> {
    #[verifier::type_invariant]
    spec fn positive_typesize(self) -> bool {
        self.typesize > 0
    }

    /// The size of an element.
    pub closed spec fn spec_typesize(&self) -> u8 {
        self.typesize
    }

    /// The decompressor.
    pub closed spec fn spec_decompressor(&self) -> D {
        self.decompressor
    }

    /// A codec for elements of `typesize` bytes, or `None` where that is zero.
    pub fn with_decompressor(typesize: u8, decompressor: D) -> (codec: Option<Self>)
        ensures
            typesize == 0 ==> codec is None,
            typesize > 0 ==> (codec matches Some(c) && c.spec_typesize() == typesize
                && c.spec_decompressor() == decompressor),
    {
        if typesize == 0 {
            None
        } else {
            Some(BloscCodec { typesize, decompressor })
        }
    }
}

impl BloscCodec<NoCompression> {
    /// A codec for elements of `typesize` bytes that reads stored containers,
    /// or `None` where `typesize` is zero.
    pub fn new(typesize: u8) -> (codec: Option<Self>)
        ensures
            typesize == 0 ==> codec is None,
            typesize > 0 ==> (codec matches Some(c) && c.spec_typesize() == typesize),
    {
        BloscCodec::with_decompressor(typesize, NoCompression)
    }
}

impl<D: BlockDecompressor> BytesToBytesCodecTraits for BloscCodec<D> {
    open spec fn spec_encode(&self, decoded: Seq<u8>) -> Option<Seq<u8>> {
        if self.spec_typesize() > 0 && decoded.len() <= BLOSC_MAX_BUFFERSIZE {
            Some(spec_stored_container(decoded, self.spec_typesize()))
        } else {
            None
        }
    }

    open spec fn spec_decode(&self, encoded: Seq<u8>) -> Option<Seq<u8>> {
        spec_blosc_decoded(&self.spec_decompressor(), Some(encoded))
    }

    fn encode_opt(&self, decoded_value: Vec<u8>, parallel: bool) -> (encoded: Result<
        Vec<u8>,
        CodecError,
    >)
        ensures
            decoded_value@.len() > BLOSC_MAX_BUFFERSIZE ==> encoded == Err::<Vec<u8>, CodecError>(
                CodecError::BloscError(BloscError::TooLarge),
            ),
    {
        proof {
            use_type_invariant(self);
        }
        match blosc_compress_stored(decoded_value.as_slice(), self.typesize) {
            Ok(bytes) => Ok(bytes),
            Err(e) => Err(CodecError::BloscError(e)),
        }
    }

    fn decode_opt(&self, encoded_value: Vec<u8>, parallel: bool) -> (decoded: Result<
        Vec<u8>,
        CodecError,
    >) {
        blosc_decode(&self.decompressor, encoded_value.as_slice())
    }

    fn partial_decode_opt(
        &self,
        encoded_value: &[u8],
        decoded_regions: &[ByteRange],
        parallel: bool,
    ) -> (served: Result<Vec<Vec<u8>>, CodecError>) {
        let served = blosc_partial_decode(&self.decompressor, encoded_value, decoded_regions);
        proof {
            if spec_layout_ok(encoded_value@) && spec_decoded(&self.decompressor, encoded_value@) is Some
                && all_valid(decoded_regions@, spec_header(encoded_value@)->0.nbytes as u64) {
                law_partial_decode_is_slice_of_full(
                    &self.decompressor,
                    encoded_value@,
                    decoded_regions@,
                    served,
                );
            }
        }
        served
    }
}

/// What the stages `stages` make of `bytes` on encoding: each stage in order
/// encodes what the stage before it made.
pub open spec fn spec_chain_encode<C: BytesToBytesCodecTraits>(stages: Seq<C>, bytes: Seq<u8>) -> Option<
    Seq<u8>,
>
    decreases stages.len(),
{
    if stages.len() == 0 {
        Some(bytes)
    } else {
        match spec_chain_encode(stages.drop_last(), bytes) {
            Some(inner) => stages.last().spec_encode(inner),
            None => None,
        }
    }
}

/// What the stages `stages` make of `bytes` on decoding: the last stage
/// decodes first, and each stage before it decodes what that made.
pub open spec fn spec_chain_decode<C: BytesToBytesCodecTraits>(stages: Seq<C>, bytes: Seq<u8>) -> Option<
    Seq<u8>,
>
    decreases stages.len(),
{
    if stages.len() == 0 {
        Some(bytes)
    } else {
        match stages.last().spec_decode(bytes) {
            Some(inner) => spec_chain_decode(stages.drop_last(), inner),
            None => None,
        }
    }
}

/// Whether decoding with `codec` undoes encoding with it.
pub open spec fn spec_round_trips<C: BytesToBytesCodecTraits>(codec: C) -> bool {
    forall|decoded: Seq<u8>| #[trigger]
        codec.spec_encode(decoded) matches Some(encoded) ==> codec.spec_decode(encoded) == Some(
            decoded,
        )
}

/// Round trip of the Blosc codec: what it encodes, it decodes to what it
/// was, whatever its decompressor.
pub proof fn law_blosc_codec_round_trips<D: BlockDecompressor>(codec: BloscCodec<D>)
    ensures
        spec_round_trips(codec),
{
    assert forall|decoded: Seq<u8>| (#[trigger] codec.spec_encode(decoded)) is Some implies codec.spec_decode(
        codec.spec_encode(decoded)->0,
    ) == Some(decoded) by {
        if codec.spec_typesize() > 0 && decoded.len() <= BLOSC_MAX_BUFFERSIZE {
            law_round_trip(&codec.spec_decompressor(), decoded, codec.spec_typesize());
        }
    }
}

/// Round trip of a pipeline: where decoding undoes encoding for each stage,
/// what the pipeline encodes, it decodes to what it was.
pub proof fn law_chain_round_trip<C: BytesToBytesCodecTraits>(stages: Seq<C>, bytes: Seq<u8>)
    requires
        forall|i: int| 0 <= i < stages.len() ==> spec_round_trips(#[trigger] stages[i]),
    ensures
        spec_chain_encode(stages, bytes) matches Some(encoded) ==> spec_chain_decode(
            stages,
            encoded,
        ) == Some(bytes),
    decreases stages.len(),
{
    if stages.len() > 0 {
        assert forall|i: int| 0 <= i < stages.drop_last().len() implies spec_round_trips(
            #[trigger] stages.drop_last()[i],
        ) by {
            assert(stages.drop_last()[i] == stages[i]);
        }
        law_chain_round_trip(stages.drop_last(), bytes);
        assert(spec_round_trips(stages[stages.len() - 1]));
    }
}

/// The stages of a pipeline that turn bytes into bytes, in the order of
/// encoding.
pub struct CodecChain<C> {
    bytes_to_bytes: Vec<C>,
}

/// The decoded bytes of the chunk under `key`, where the store holds it and
/// the stages decode it.
pub open spec fn spec_chunk_decoded<C: BytesToBytesCodecTraits>(
    stages: Seq<C>,
    contents: Map<Seq<char>, Seq<u8>>,
    key: Seq<char>,
) -> Option<Seq<u8>> {
    if contents.contains_key(key) {
        spec_chain_decode(stages, contents[key])
    } else {
        None
    }
}

impl<C: BytesToBytesCodecTraits> CodecChain<C> {
    /// The stages.
    pub closed spec fn spec_stages(&self) -> Seq<C> {
        self.bytes_to_bytes@
    }

    /// A pipeline of the stages `bytes_to_bytes`, in the order of encoding.
    pub fn new(bytes_to_bytes: Vec<C>) -> (chain: Self)
        ensures
            chain.spec_stages() == bytes_to_bytes@,
    {
        CodecChain { bytes_to_bytes }
    }

    /// Encodes `decoded_value`: the stages run in order.
    pub fn encode_opt(&self, decoded_value: Vec<u8>, parallel: bool) -> (encoded: Result<
        Vec<u8>,
        CodecError,
    >)
        ensures
            match spec_chain_encode(self.spec_stages(), decoded_value@) {
                Some(bytes) => encoded matches Ok(v) && v@ == bytes,
                None => encoded is Err,
            },
    {
        let ghost input = decoded_value@;
        let ghost stages = self.bytes_to_bytes@;
        let mut current = decoded_value;
        let mut i: usize = 0;
        assert(stages.take(0) =~= Seq::<C>::empty());
        while i < self.bytes_to_bytes.len()
            invariant
                i <= stages.len(),
                stages == self.bytes_to_bytes@,
                input == decoded_value@,
                spec_chain_encode(stages.take(i as int), input) == Some(current@),
            decreases stages.len() - i,
        {
            let ghost before = current@;
            proof {
                assert(stages.take(i + 1).drop_last() =~= stages.take(i as int));
                assert(stages.take(i + 1).last() == stages[i as int]);
                assert(spec_chain_encode(stages.take(i + 1), input) == stages[i as int].spec_encode(
                    before,
                ));
            }
            current = match self.bytes_to_bytes[i].encode_opt(current, parallel) {
                Ok(bytes) => bytes,
                Err(e) => {
                    proof {
                        lemma_encode_prefix_fails(stages, input, i + 1);
                    }
                    return Err(e);
                },
            };
            i += 1;
        }
        assert(stages.take(i as int) =~= stages);
        Ok(current)
    }

    /// Decodes `encoded_value`: the stages run in reverse order.
    pub fn decode_opt(&self, encoded_value: Vec<u8>, parallel: bool) -> (decoded: Result<
        Vec<u8>,
        CodecError,
    >)
        ensures
            match spec_chain_decode(self.spec_stages(), encoded_value@) {
                Some(bytes) => decoded matches Ok(v) && v@ == bytes,
                None => decoded is Err,
            },
    {
        self.decode_down_to(encoded_value, 0, parallel)
    }

    /// Decodes `encoded_value` with the stages from the last down to the
    /// stage at `first`.
    fn decode_down_to(&self, encoded_value: Vec<u8>, first: usize, parallel: bool) -> (decoded: Result<
        Vec<u8>,
        CodecError,
    >)
        requires
            first <= self.spec_stages().len(),
        ensures
            match decoded {
                Ok(v) => spec_chain_decode(self.spec_stages(), encoded_value@) == spec_chain_decode(
                    self.spec_stages().take(first as int),
                    v@,
                ),
                Err(_) => spec_chain_decode(self.spec_stages(), encoded_value@) is None,
            },
    {
        let ghost input = encoded_value@;
        let ghost stages = self.bytes_to_bytes@;
        let mut current = encoded_value;
        let mut i: usize = self.bytes_to_bytes.len();
        assert(stages.take(i as int) =~= stages);
        while i > first
            invariant
                first <= i <= stages.len(),
                stages == self.bytes_to_bytes@,
                input == encoded_value@,
                spec_chain_decode(stages, input) == spec_chain_decode(
                    stages.take(i as int),
                    current@,
                ),
            decreases i,
        {
            let ghost before = current@;
            proof {
                assert(stages.take(i as int).drop_last() =~= stages.take(i - 1));
                assert(stages.take(i as int).last() == stages[i - 1]);
                assert(spec_chain_decode(stages.take(i as int), before) == (match stages[i
                    - 1].spec_decode(before) {
                    Some(inner) => spec_chain_decode(stages.take(i - 1), inner),
                    None => None,
                }));
            }
            i -= 1;
            current = match self.bytes_to_bytes[i].decode_opt(current, parallel) {
                Ok(bytes) => bytes,
                Err(e) => {
                    return Err(e);
                },
            };
        }
        Ok(current)
    }

    /// Serves the ranges `decoded_regions` of the decoded bytes of the chunk
    /// that `storage` holds under `key`, or `None` where the store holds no
    /// such chunk.
    ///
    /// Without stages only the requested ranges are read from the store. With
    /// stages the encoded chunk is read whole, the stages after the first
    /// decode it whole, and the first stage serves the ranges from what they
    /// made.
    pub fn partial_decode_opt<S: ReadableStorageTraits>(
        &self,
        storage: &S,
        key: &StoreKey,
        decoded_regions: &[ByteRange],
        parallel: bool,
    ) -> (served: Result<Option<Vec<Vec<u8>>>, CodecError>)
        ensures
            served matches Ok(None) ==> !storage.contents().contains_key(key@),
            served matches Ok(Some(parts)) ==> storage.contents().contains_key(key@),
            storage.reliable() && !storage.contents().contains_key(key@) ==> served matches Ok(
                None,
            ),
            spec_chunk_decoded(self.spec_stages(), storage.contents(), key@) matches Some(bytes)
                ==> (if all_valid(decoded_regions@, bytes.len() as u64) {
                match served {
                    Ok(Some(parts)) => spec_serves(parts@, bytes, decoded_regions@),
                    Ok(None) => false,
                    Err(_) => !storage.reliable(),
                }
            } else {
                served is Err
            }),
    {
        if self.bytes_to_bytes.len() == 0 {
            return match storage.get_partial_values_key(key, decoded_regions) {
                Ok(found) => Ok(found),
                Err(e) => Err(CodecError::StorageError(e)),
            };
        }
        let encoded = match storage.get(key) {
            Ok(Some(encoded)) => encoded,
            Ok(None) => {
                return Ok(None);
            },
            Err(e) => {
                return Err(CodecError::StorageError(e));
            },
        };
        let inner = match self.decode_down_to(encoded, 1, parallel) {
            Ok(inner) => inner,
            Err(e) => {
                return Err(e);
            },
        };
        proof {
            let stages = self.bytes_to_bytes@;
            assert(stages.take(1).drop_last() =~= Seq::<C>::empty());
            assert(stages.take(1).last() == stages[0]);
            assert(spec_chain_decode(stages.take(1), inner@) == (match stages[0].spec_decode(
                inner@,
            ) {
                Some(bytes) => spec_chain_decode(stages.take(1).drop_last(), bytes),
                None => None,
            }));
        }
        match self.bytes_to_bytes[0].partial_decode_opt(inner.as_slice(), decoded_regions, parallel) {
            Ok(parts) => Ok(Some(parts)),
            Err(e) => Err(e),
        }
    }
}

/// Where the first stages of a pipeline refuse a buffer, the pipeline does.
pub proof fn lemma_encode_prefix_fails<C: BytesToBytesCodecTraits>(
    stages: Seq<C>,
    bytes: Seq<u8>,
    n: int,
)
    requires
        0 <= n <= stages.len(),
        spec_chain_encode(stages.take(n), bytes) is None,
    ensures
        spec_chain_encode(stages, bytes) is None,
    decreases stages.len() - n,
{
    if n < stages.len() {
        assert(stages.take(n + 1).drop_last() =~= stages.take(n));
        lemma_encode_prefix_fails(stages, bytes, n + 1);
    } else {
        assert(stages.take(n) =~= stages);
    }
}

} // verus!
