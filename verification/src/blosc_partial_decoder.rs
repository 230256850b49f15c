//! Partial decoders for the Blosc codec.

use crate::blosc::spec_header;
use crate::blosc_blocks::{spec_decoded, spec_layout_ok, BlockDecompressor, NoCompression};
use crate::byte_range::{all_valid, ByteRange};
use crate::codec::{
    blosc_decode_fetched, blosc_partial_decode_fetched, law_partial_decode_is_slice_of_full,
    spec_blosc_decoded_whole, spec_blosc_served, BytesPartialDecoderTraits, CodecError,
    DecodedChunk,
};
use vstd::prelude::*;

verus! {

/// The decoded bytes of a chunk whose encoded value is `encoded`, where there
/// is an encoded value, it is a container that can be decoded, and all of its
/// blocks decode.
pub open spec fn spec_blosc_decoded<D: BlockDecompressor>(d: &D, encoded: Option<Seq<u8>>) -> Option<
    Seq<u8>,
> {
    match encoded {
        Some(bytes) => if spec_layout_ok(bytes) {
            spec_decoded(d, bytes)
        } else {
            None
        },
        None => None,
    }
}

/// Partial decoder for the Blosc codec.
///
/// It owns the handle underneath it, which yields the encoded value, and the
/// decompressor that decodes compressed blocks.
pub struct BloscPartialDecoder<T, D> {
    input_handle: T,
    decompressor: D,
}

impl<T> BloscPartialDecoder<T, NoCompression> {
    /// A partial decoder over `input_handle` that decodes stored containers.
    pub fn new(input_handle: T) -> (decoder: Self)
        ensures
            decoder.spec_input_handle() == input_handle,
            decoder.spec_decompressor() == NoCompression,
    {
        BloscPartialDecoder { input_handle, decompressor: NoCompression }
    }
}

impl<T, D> BloscPartialDecoder<T, D> {
    /// The handle underneath.
    pub closed spec fn spec_input_handle(&self) -> T {
        self.input_handle
    }

    /// The decompressor.
    pub closed spec fn spec_decompressor(&self) -> D {
        self.decompressor
    }

    /// A partial decoder over `input_handle` that decodes compressed blocks
    /// with `decompressor`.
    pub fn with_decompressor(input_handle: T, decompressor: D) -> (decoder: Self)
        ensures
            decoder.spec_input_handle() == input_handle,
            decoder.spec_decompressor() == decompressor,
    {
        BloscPartialDecoder { input_handle, decompressor }
    }
}

impl<T: BytesPartialDecoderTraits, D: BlockDecompressor> BytesPartialDecoderTraits for BloscPartialDecoder<
    T,
    D,
> {
    open spec fn spec_chunk(&self) -> DecodedChunk {
        match self.spec_input_handle().spec_chunk() {
            DecodedChunk::Absent => DecodedChunk::Absent,
            DecodedChunk::Undecodable => DecodedChunk::Undecodable,
            DecodedChunk::Bytes(encoded) => match spec_blosc_decoded(
                &self.spec_decompressor(),
                Some(encoded),
            ) {
                Some(bytes) => DecodedChunk::Bytes(bytes),
                None => DecodedChunk::Undecodable,
            },
        }
    }

    open spec fn reliable(&self) -> bool {
        self.spec_input_handle().reliable()
    }

    /// Fetches the whole encoded value from the handle underneath, validates
    /// it, and serves the ranges from the blocks they touch.
    fn partial_decode_opt(&self, decoded_regions: &[ByteRange], parallel: bool) -> (served: Result<
        Option<Vec<Vec<u8>>>,
        CodecError,
    >)
        ensures
            self.spec_input_handle().spec_chunk() matches DecodedChunk::Bytes(encoded) ==> (
            match served {
                Ok(Some(parts)) => spec_blosc_served(
                    &self.spec_decompressor(),
                    encoded,
                    decoded_regions@,
                    Ok::<Vec<Vec<u8>>, CodecError>(parts),
                ),
                Ok(None) => false,
                Err(e) => !self.reliable() || spec_blosc_served(
                    &self.spec_decompressor(),
                    encoded,
                    decoded_regions@,
                    Err::<Vec<Vec<u8>>, CodecError>(e),
                ),
            }),
            self.spec_input_handle().spec_chunk() matches DecodedChunk::Bytes(encoded) ==> (
            !spec_layout_ok(encoded) ==> served is Err),
    {
        let fetched = self.input_handle.decode_opt(parallel);
        let served = blosc_partial_decode_fetched(&self.decompressor, fetched, decoded_regions);
        proof {
            if let DecodedChunk::Bytes(encoded) = self.input_handle.spec_chunk() {
                if spec_layout_ok(encoded) && spec_decoded(&self.decompressor, encoded) is Some
                    && all_valid(decoded_regions@, spec_header(encoded)->0.nbytes as u64) {
                    if served is Ok && served->Ok_0 is Some {
                        law_partial_decode_is_slice_of_full(
                            &self.decompressor,
                            encoded,
                            decoded_regions@,
                            Ok(served->Ok_0->0),
                        );
                    }
                    if served is Err && self.reliable() {
                        law_partial_decode_is_slice_of_full(
                            &self.decompressor,
                            encoded,
                            decoded_regions@,
                            Err(served->Err_0),
                        );
                    }
                }
            }
        }
        served
    }

    /// Fetches the whole encoded value from the handle underneath and decodes
    /// all of it.
    fn decode_opt(&self, parallel: bool) -> (decoded: Result<Option<Vec<u8>>, CodecError>) {
        let fetched = self.input_handle.decode_opt(parallel);
        blosc_decode_fetched(&self.decompressor, fetched)
    }
}

/// Absence goes up the chain: a decoder over a handle whose chunk is absent
/// has no chunk itself, so that where nothing fails for reasons of its own it
/// answers `None`, not an error and not an empty list.
pub proof fn law_absence_goes_up<T: BytesPartialDecoderTraits, D: BlockDecompressor>(
    decoder: BloscPartialDecoder<T, D>,
)
    requires
        decoder.spec_input_handle().spec_chunk() is Absent,
    ensures
        decoder.spec_chunk() is Absent,
{
}

/// Asynchronous partial decoder for the Blosc codec.
///
/// It owns the handle underneath it, on which the caller awaits the encoded
/// value. What follows the fetch is [`AsyncBloscPartialDecoder::partial_decode_fetched`].
pub struct AsyncBloscPartialDecoder<T, D> {
    input_handle: T,
    decompressor: D,
}

impl<T> AsyncBloscPartialDecoder<T, NoCompression> {
    /// A partial decoder over `input_handle` that decodes stored containers.
    pub fn new(input_handle: T) -> (decoder: Self)
        ensures
            decoder.spec_input_handle() == input_handle,
            decoder.spec_decompressor() == NoCompression,
    {
        AsyncBloscPartialDecoder { input_handle, decompressor: NoCompression }
    }
}

impl<T, D> AsyncBloscPartialDecoder<T, D> {
    /// The handle underneath.
    pub closed spec fn spec_input_handle(&self) -> T {
        self.input_handle
    }

    /// The decompressor.
    pub closed spec fn spec_decompressor(&self) -> D {
        self.decompressor
    }

    /// A partial decoder over `input_handle` that decodes compressed blocks
    /// with `decompressor`.
    pub fn with_decompressor(input_handle: T, decompressor: D) -> (decoder: Self)
        ensures
            decoder.spec_input_handle() == input_handle,
            decoder.spec_decompressor() == decompressor,
    {
        AsyncBloscPartialDecoder { input_handle, decompressor }
    }

    /// The handle underneath, on which the caller awaits the encoded value.
    pub fn input_handle(&self) -> (handle: &T)
        ensures
            *handle == self.spec_input_handle(),
    {
        &self.input_handle
    }
}

impl<T, D: BlockDecompressor> AsyncBloscPartialDecoder<T, D> {
    /// Serves `decoded_regions` from what the awaited fetch of the whole
    /// encoded value gave: `fetched`. The answer is that of the blocking
    /// decoder for the same fetch, and does not depend on `parallel`.
    pub fn partial_decode_fetched(
        &self,
        fetched: Result<Option<Vec<u8>>, CodecError>,
        decoded_regions: &[ByteRange],
        parallel: bool,
    ) -> (served: Result<Option<Vec<Vec<u8>>>, CodecError>)
        ensures
            fetched matches Err(e) ==> served == Err::<Option<Vec<Vec<u8>>>, CodecError>(e),
            fetched matches Ok(None) ==> served matches Ok(None),
            fetched matches Ok(Some(encoded)) ==> (match served {
                Ok(Some(parts)) => spec_blosc_served(
                    &self.spec_decompressor(),
                    encoded@,
                    decoded_regions@,
                    Ok::<Vec<Vec<u8>>, CodecError>(parts),
                ),
                Ok(None) => false,
                Err(e) => spec_blosc_served(
                    &self.spec_decompressor(),
                    encoded@,
                    decoded_regions@,
                    Err::<Vec<Vec<u8>>, CodecError>(e),
                ),
            }),
    {
        blosc_partial_decode_fetched(&self.decompressor, fetched, decoded_regions)
    }

    /// Decodes the whole chunk from what the awaited fetch of the whole
    /// encoded value gave: `fetched`. The answer is that of the blocking
    /// decoder for the same fetch, and does not depend on `parallel`.
    pub fn decode_fetched(&self, fetched: Result<Option<Vec<u8>>, CodecError>, parallel: bool) -> (decoded: Result<
        Option<Vec<u8>>,
        CodecError,
    >)
        ensures
            fetched matches Err(e) ==> decoded == Err::<Option<Vec<u8>>, CodecError>(e),
            fetched matches Ok(None) ==> decoded matches Ok(None),
            fetched matches Ok(Some(encoded)) ==> (match decoded {
                Ok(Some(bytes)) => spec_blosc_decoded_whole(
                    &self.spec_decompressor(),
                    encoded@,
                    Ok::<Vec<u8>, CodecError>(bytes),
                ),
                Ok(None) => false,
                Err(e) => spec_blosc_decoded_whole(
                    &self.spec_decompressor(),
                    encoded@,
                    Err::<Vec<u8>, CodecError>(e),
                ),
            }),
    {
        blosc_decode_fetched(&self.decompressor, fetched)
    }
}

} // verus!
