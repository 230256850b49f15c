use zarrs::blosc_blocks::{BlockDecompressor, BloscError};
use zarrs::blosc_partial_decoder::{AsyncBloscPartialDecoder, BloscPartialDecoder};
use zarrs::blosc_stored::blosc_compress_stored;
use zarrs::byte_range::{ByteRange, InvalidByteRangeError};
use zarrs::codec::{
    blosc_partial_decode, blosc_partial_decode_fetched, BytesPartialDecoderTraits, CodecError,
    StoragePartialDecoder,
};
use zarrs::codec_chain::{BloscCodec, BytesToBytesCodecTraits, CodecChain};
use zarrs::blosc_blocks::NoCompression;
use zarrs::storage::{MemoryStore, StorageError, StoreKey, WritableStorageTraits};

fn key(text: &str) -> StoreKey {
    StoreKey::new(text).unwrap()
}

fn integers() -> Vec<u8> {
    (0..16u32).flat_map(|i| (i * 1000).to_le_bytes()).collect()
}

fn store_with_chunk(decoded: &[u8]) -> MemoryStore {
    let mut store = MemoryStore::new();
    let encoded = blosc_compress_stored(decoded, 4).unwrap();
    store.set(&key("c/0"), &encoded).unwrap();
    store
}

fn invalid() -> CodecError {
    CodecError::Other("blosc encoded value is invalid".to_string())
}

#[test]
fn partial_decode_of_two_integers_equals_full_decode_then_slice() {
    let decoded = integers();
    assert_eq!(decoded.len(), 64);
    let store = store_with_chunk(&decoded);
    let decoder = BloscPartialDecoder::new(StoragePartialDecoder::new(&store, key("c/0")));
    let parts = decoder
        .partial_decode_opt(&[ByteRange::FromStart(8, Some(8))], false)
        .unwrap()
        .unwrap();
    let mut expected = 2000u32.to_le_bytes().to_vec();
    expected.extend(3000u32.to_le_bytes());
    assert_eq!(parts, vec![expected]);
    let full = decoder.decode_opt(false).unwrap().unwrap();
    assert_eq!(full, decoded);
    assert_eq!(parts[0], full[8..16].to_vec());
}

#[test]
fn partial_decode_of_the_whole_chunk_equals_full_decode() {
    let decoded = integers();
    let store = store_with_chunk(&decoded);
    let decoder = BloscPartialDecoder::new(StoragePartialDecoder::new(&store, key("c/0")));
    for range in [ByteRange::FromStart(0, Some(64)), ByteRange::FromStart(0, None), ByteRange::Suffix(64)] {
        assert_eq!(
            decoder.partial_decode_opt(&[range], true),
            Ok(Some(vec![decoded.clone()]))
        );
    }
}

#[test]
fn partial_decode_serves_overlapping_ranges_in_request_order() {
    let decoded = integers();
    let store = store_with_chunk(&decoded);
    let decoder = BloscPartialDecoder::new(StoragePartialDecoder::new(&store, key("c/0")));
    let forward = [ByteRange::FromStart(0, Some(10)), ByteRange::FromStart(5, Some(10))];
    assert_eq!(
        decoder.partial_decode_opt(&forward, false),
        Ok(Some(vec![decoded[0..10].to_vec(), decoded[5..15].to_vec()]))
    );
    let three = [ByteRange::Suffix(4), ByteRange::FromStart(5, Some(10)), ByteRange::FromStart(0, Some(10))];
    assert_eq!(
        decoder.partial_decode_opt(&three, true),
        Ok(Some(vec![decoded[60..64].to_vec(), decoded[5..15].to_vec(), decoded[0..10].to_vec()]))
    );
}

#[test]
fn partial_decode_does_not_depend_on_the_parallel_hint() {
    let decoded = integers();
    let store = store_with_chunk(&decoded);
    let decoder = BloscPartialDecoder::new(StoragePartialDecoder::new(&store, key("c/0")));
    let ranges = [ByteRange::FromStart(3, Some(9)), ByteRange::Suffix(1)];
    assert_eq!(
        decoder.partial_decode_opt(&ranges, false),
        decoder.partial_decode_opt(&ranges, true)
    );
}

#[test]
fn partial_decode_of_an_empty_encoded_value_is_a_decode_error() {
    let mut store = MemoryStore::new();
    store.set(&key("c/0"), &[]).unwrap();
    let decoder = BloscPartialDecoder::new(StoragePartialDecoder::new(&store, key("c/0")));
    assert_eq!(
        decoder.partial_decode_opt(&[ByteRange::FromStart(0, Some(0))], false),
        Err(invalid())
    );
    assert_eq!(decoder.partial_decode_opt(&[], false), Err(invalid()));
    assert_eq!(decoder.decode_opt(false), Err(invalid()));
}

#[test]
fn partial_decode_validates_the_header_before_it_serves() {
    let decoded = integers();
    let mut encoded = blosc_compress_stored(&decoded, 4).unwrap();
    encoded[0] = 9;
    let mut store = MemoryStore::new();
    store.set(&key("c/0"), &encoded).unwrap();
    let decoder = BloscPartialDecoder::new(StoragePartialDecoder::new(&store, key("c/0")));
    assert_eq!(
        decoder.partial_decode_opt(&[ByteRange::FromStart(40, Some(4))], false),
        Err(invalid())
    );
    assert_eq!(decoder.partial_decode_opt(&[], false), Err(invalid()));
    encoded[0] = 2;
    encoded[12] = 81;
    assert_eq!(
        blosc_partial_decode(&NoCompression, &encoded, &[ByteRange::FromStart(40, Some(4))]),
        Err(invalid())
    );
}

#[test]
fn partial_decode_of_a_range_beyond_the_chunk_is_a_contract_violation() {
    let decoded = integers();
    let store = store_with_chunk(&decoded);
    let decoder = BloscPartialDecoder::new(StoragePartialDecoder::new(&store, key("c/0")));
    let beyond = ByteRange::FromStart(60, Some(5));
    assert_eq!(
        decoder.partial_decode_opt(&[ByteRange::FromStart(0, Some(4)), beyond], false),
        Err(CodecError::InvalidByteRangeError(InvalidByteRangeError {
            byte_range: beyond,
            bytes_len: 64,
        }))
    );
    assert!(decoder.partial_decode_opt(&[ByteRange::Suffix(65)], false).is_err());
    assert!(decoder.partial_decode_opt(&[ByteRange::FromStart(65, None)], false).is_err());
    assert_eq!(
        decoder.partial_decode_opt(&[ByteRange::FromStart(64, None)], false),
        Ok(Some(vec![vec![]]))
    );
}

#[test]
fn partial_decode_of_an_absent_chunk_is_absent() {
    let store = store_with_chunk(&integers());
    let decoder = BloscPartialDecoder::new(StoragePartialDecoder::new(&store, key("c/1")));
    assert_eq!(decoder.partial_decode_opt(&[ByteRange::FromStart(0, Some(4))], false), Ok(None));
    assert_eq!(decoder.partial_decode_opt(&[], false), Ok(None));
    assert_eq!(decoder.decode_opt(false), Ok(None));
    let bottom = StoragePartialDecoder::new(&store, key("c/1"));
    assert_eq!(bottom.partial_decode_opt(&[ByteRange::Suffix(1)], false), Ok(None));
    assert_eq!(bottom.decode_opt(true), Ok(None));
}

#[test]
fn partial_decode_with_no_ranges_is_an_empty_list() {
    let store = store_with_chunk(&integers());
    let decoder = BloscPartialDecoder::new(StoragePartialDecoder::new(&store, key("c/0")));
    assert_eq!(decoder.partial_decode_opt(&[], false), Ok(Some(vec![])));
}

#[test]
fn storage_partial_decoder_serves_the_stored_bytes() {
    let mut store = MemoryStore::new();
    store.set(&key("raw"), &[1, 2, 3, 4, 5]).unwrap();
    let bottom = StoragePartialDecoder::new(&store, key("raw"));
    assert_eq!(
        bottom.partial_decode_opt(&[ByteRange::Suffix(2), ByteRange::FromStart(1, Some(2))], false),
        Ok(Some(vec![vec![4, 5], vec![2, 3]]))
    );
    let beyond = ByteRange::FromStart(5, Some(1));
    assert_eq!(
        bottom.partial_decode_opt(&[beyond], false),
        Err(CodecError::StorageError(StorageError::InvalidByteRangeError(
            InvalidByteRangeError { byte_range: beyond, bytes_len: 5 }
        )))
    );
    assert_eq!(bottom.decode_opt(false), Ok(Some(vec![1, 2, 3, 4, 5])));
}

#[test]
fn partial_decoders_chain_over_two_blosc_stages() {
    let decoded = integers();
    let inner = blosc_compress_stored(&decoded, 4).unwrap();
    let outer = blosc_compress_stored(&inner, 1).unwrap();
    let mut store = MemoryStore::new();
    store.set(&key("c/0"), &outer).unwrap();
    let decoder = BloscPartialDecoder::new(BloscPartialDecoder::new(StoragePartialDecoder::new(
        &store,
        key("c/0"),
    )));
    assert_eq!(
        decoder.partial_decode_opt(&[ByteRange::FromStart(8, Some(8))], false),
        Ok(Some(vec![decoded[8..16].to_vec()]))
    );
    assert_eq!(decoder.decode_opt(false), Ok(Some(decoded)));
}

struct Fails;

impl BlockDecompressor for Fails {
    fn decompress_block(&self, _container: &[u8], _index: usize) -> Option<Vec<u8>> {
        None
    }
}

#[test]
fn partial_decode_fails_whole_when_a_block_fails() {
    let mut container = blosc_compress_stored(&integers(), 4).unwrap();
    container[2] = 0;
    container[8] = 16;
    container.extend([0u8; 16]);
    container[12] = 96;
    let ranges = [ByteRange::FromStart(0, Some(0)), ByteRange::FromStart(20, Some(4))];
    assert_eq!(
        blosc_partial_decode(&Fails, &container, &ranges),
        Err(CodecError::BloscError(BloscError::BlockFailed(1)))
    );
    assert_eq!(
        blosc_partial_decode(&Fails, &container, &ranges[..1]),
        Ok(vec![vec![]])
    );
}

#[test]
fn async_decoder_serves_what_the_blocking_decoder_serves() {
    let decoded = integers();
    let encoded = blosc_compress_stored(&decoded, 4).unwrap();
    let decoder = AsyncBloscPartialDecoder::new("handle");
    assert_eq!(*decoder.input_handle(), "handle");
    let ranges = [ByteRange::FromStart(8, Some(8)), ByteRange::Suffix(4)];
    assert_eq!(
        decoder.partial_decode_fetched(Ok(Some(encoded.clone())), &ranges, false),
        Ok(Some(vec![decoded[8..16].to_vec(), decoded[60..64].to_vec()]))
    );
    assert_eq!(decoder.partial_decode_fetched(Ok(None), &ranges, false), Ok(None));
    let failure = CodecError::StorageError(StorageError::Other("unreachable".to_string()));
    assert_eq!(
        decoder.partial_decode_fetched(
            Err(CodecError::StorageError(StorageError::Other("unreachable".to_string()))),
            &ranges,
            false
        ),
        Err(failure)
    );
    assert_eq!(decoder.partial_decode_fetched(Ok(Some(vec![])), &ranges, true), Err(invalid()));
    assert_eq!(
        blosc_partial_decode_fetched(&NoCompression, Ok(Some(encoded)), &ranges),
        Ok(Some(vec![decoded[8..16].to_vec(), decoded[60..64].to_vec()]))
    );
}

#[test]
fn codec_chain_round_trip() {
    for typesize in [1u8, 2, 4, 8] {
        let chain = CodecChain::new(vec![
            BloscCodec::new(typesize).unwrap(),
            BloscCodec::new(1).unwrap(),
        ]);
        for count in [0usize, 1, 16, 4100] {
            let decoded: Vec<u8> = (0..count * typesize as usize).map(|k| (k * 13) as u8).collect();
            let encoded = chain.encode_opt(decoded.clone(), false).unwrap();
            assert_eq!(encoded.len(), decoded.len() + 32);
            assert_eq!(chain.decode_opt(encoded, true), Ok(decoded));
        }
    }
    let empty: CodecChain<BloscCodec<NoCompression>> = CodecChain::new(vec![]);
    assert_eq!(empty.encode_opt(vec![1, 2], false), Ok(vec![1, 2]));
    assert_eq!(empty.decode_opt(vec![1, 2], false), Ok(vec![1, 2]));
    assert!(BloscCodec::new(0).is_none());
    assert!(BloscCodec::with_decompressor(2, Fails).is_some());
}

#[test]
fn codec_chain_encodes_in_order_and_decodes_in_reverse() {
    let first = BloscCodec::new(4).unwrap();
    let second = BloscCodec::new(1).unwrap();
    let decoded = integers();
    let inner = first.encode_opt(decoded.clone(), false).unwrap();
    let outer = second.encode_opt(inner.clone(), false).unwrap();
    assert_eq!(inner[3], 4);
    assert_eq!(outer[3], 1);
    let chain = CodecChain::new(vec![first, second]);
    assert_eq!(chain.encode_opt(decoded.clone(), false), Ok(outer.clone()));
    assert_eq!(chain.decode_opt(outer, false), Ok(decoded));
    assert_eq!(chain.decode_opt(inner, false), Err(invalid()));
}

#[test]
fn codec_chain_partial_decode_equals_full_decode_then_slice() {
    let decoded = integers();
    let chain = CodecChain::new(vec![BloscCodec::new(4).unwrap(), BloscCodec::new(1).unwrap()]);
    let mut store = MemoryStore::new();
    store.set(&key("c/0"), &chain.encode_opt(decoded.clone(), false).unwrap()).unwrap();
    let ranges = [ByteRange::FromStart(0, Some(10)), ByteRange::FromStart(5, Some(10)), ByteRange::Suffix(64)];
    assert_eq!(
        chain.partial_decode_opt(&store, &key("c/0"), &ranges, false),
        Ok(Some(vec![decoded[0..10].to_vec(), decoded[5..15].to_vec(), decoded.clone()]))
    );
    assert_eq!(chain.partial_decode_opt(&store, &key("c/1"), &ranges, false), Ok(None));
    assert!(chain
        .partial_decode_opt(&store, &key("c/0"), &[ByteRange::FromStart(1, Some(64))], false)
        .is_err());
    store.set(&key("raw"), &decoded).unwrap();
    let empty: CodecChain<BloscCodec<NoCompression>> = CodecChain::new(vec![]);
    assert_eq!(
        empty.partial_decode_opt(&store, &key("raw"), &ranges[..2], true),
        Ok(Some(vec![decoded[0..10].to_vec(), decoded[5..15].to_vec()]))
    );
    assert_eq!(
        chain.partial_decode_opt(&store, &key("raw"), &ranges, false),
        Err(invalid())
    );
}

#[test]
fn codec_error_texts() {
    assert_eq!(invalid().to_string(), "blosc encoded value is invalid");
    assert_eq!(
        CodecError::BloscError(BloscError::BlockFailed(12)).to_string(),
        "blosc block 12 did not decode"
    );
    assert_eq!(BloscError::InvalidContainer.to_string(), "blosc encoded value is invalid");
    assert_eq!(
        BloscError::TooLarge.to_string(),
        "the buffer is too large for a blosc container"
    );
    assert_eq!(
        BloscError::InvalidTypesize.to_string(),
        "the element size of a blosc container is zero"
    );
    assert_eq!(
        CodecError::InvalidByteRangeError(InvalidByteRangeError {
            byte_range: ByteRange::FromStart(60, Some(5)),
            bytes_len: 64,
        })
        .to_string(),
        "invalid byte range 60..65 for bytes of length 64"
    );
    assert_eq!(
        CodecError::StorageError(StorageError::Other("down".to_string())).to_string(),
        "down"
    );
}
