use zarrs::blosc::{
    blosc_header, blosc_nbytes, blosc_typesize, blosc_validate, read_le_u32, write_header,
    write_le_u32, BloscHeader,
};
use zarrs::blosc_blocks::{
    blosc_decompress, blosc_decompress_range, blosc_layout, is_stored, BlockDecompressor,
    BloscError, NoCompression,
};
use zarrs::blosc_stored::{blosc_compress_stored, stored_blocksize};

/// A decompressor for test containers whose block `j` holds the byte `j` repeated.
struct Repeats {
    broken: Option<usize>,
    blocksize: usize,
    nbytes: usize,
}

impl BlockDecompressor for Repeats {
    fn decompress_block(&self, _container: &[u8], index: usize) -> Option<Vec<u8>> {
        if self.broken == Some(index) {
            return None;
        }
        let len = self.blocksize.min(self.nbytes - index * self.blocksize);
        Some(vec![index as u8; len])
    }
}

fn compressed_container(nbytes: u32, blocksize: u32) -> Vec<u8> {
    let nblocks = (nbytes + blocksize - 1) / blocksize;
    let cbytes = 16 + 4 * nblocks + 3;
    let mut out = Vec::new();
    write_header(
        &mut out,
        &BloscHeader { version: 2, versionlz: 1, flags: 1, typesize: 4, nbytes, blocksize, cbytes },
    );
    out.resize(cbytes as usize, 0xee);
    out
}

#[test]
fn blosc_header_fields_are_little_endian() {
    let bytes = [2u8, 1, 3, 4, 0x40, 0, 0, 0, 0x10, 0x20, 0, 0, 0x50, 0, 0, 1, 9, 9];
    assert_eq!(
        blosc_header(&bytes),
        Some(BloscHeader {
            version: 2,
            versionlz: 1,
            flags: 3,
            typesize: 4,
            nbytes: 64,
            blocksize: 0x2010,
            cbytes: 0x0100_0050,
        })
    );
    assert_eq!(blosc_header(&bytes[..15]), None);
    assert_eq!(read_le_u32(&[0x78, 0x56, 0x34, 0x12], 0), 0x1234_5678);
    let mut out = vec![7];
    write_le_u32(&mut out, 0xfffe_fdfc);
    assert_eq!(out, vec![7, 0xfc, 0xfd, 0xfe, 0xff]);
}

#[test]
fn blosc_validate_checks_version_and_declared_lengths() {
    let good = blosc_compress_stored(&[1, 2, 3, 4], 4).unwrap();
    assert_eq!(blosc_validate(&good), Some(4));
    assert_eq!(blosc_nbytes(&good), Some(4));
    assert_eq!(blosc_typesize(&good), Some(4));
    let mut longer = good.clone();
    longer.push(0);
    assert_eq!(blosc_validate(&longer), None);
    assert_eq!(blosc_validate(&good[..19]), None);
    let mut version = good.clone();
    version[0] = 3;
    assert_eq!(blosc_validate(&version), None);
    assert_eq!(blosc_nbytes(&version), None);
    assert_eq!(blosc_typesize(&version), None);
    let mut huge = good.clone();
    huge[4..8].copy_from_slice(&2147483632u32.to_le_bytes());
    assert_eq!(blosc_validate(&huge), None);
    huge[4..8].copy_from_slice(&2147483631u32.to_le_bytes());
    assert_eq!(blosc_validate(&huge), Some(2147483631));
    assert!(blosc_layout(&huge).is_none());
    let mut typesize = good.clone();
    typesize[3] = 0;
    assert_eq!(blosc_validate(&typesize), Some(4));
    assert_eq!(blosc_typesize(&typesize), None);
    assert!(blosc_layout(&typesize).is_none());
}

#[test]
fn blosc_validate_rejects_an_empty_buffer() {
    assert_eq!(blosc_validate(&[]), None);
    assert_eq!(blosc_nbytes(&[]), None);
    assert_eq!(blosc_typesize(&[]), None);
    assert!(blosc_layout(&[]).is_none());
    assert_eq!(blosc_decompress(&NoCompression, &[]), Err(BloscError::InvalidContainer));
}

#[test]
fn blosc_stored_container_is_byte_exact() {
    let container = blosc_compress_stored(&[10, 11, 12, 13, 14, 15, 16, 17], 4).unwrap();
    assert_eq!(
        container,
        vec![2, 1, 0x12, 4, 8, 0, 0, 0, 8, 0, 0, 0, 24, 0, 0, 0, 10, 11, 12, 13, 14, 15, 16, 17]
    );
    let bytes = vec![5u8; 1000];
    let container = blosc_compress_stored(&bytes, 1).unwrap();
    assert_eq!(&container[..16], &[2, 1, 0x02, 1, 0xe8, 3, 0, 0, 0xe8, 3, 0, 0, 0xf8, 3, 0, 0]);
    assert!(is_stored(&blosc_header(&container).unwrap()));
}

#[test]
fn blosc_stored_blocksize_follows_the_length_and_the_element() {
    assert_eq!(stored_blocksize(0, 4), 1);
    assert_eq!(stored_blocksize(3, 4), 1);
    assert_eq!(stored_blocksize(4, 4), 4);
    assert_eq!(stored_blocksize(10, 4), 8);
    assert_eq!(stored_blocksize(32767, 8), 32760);
    assert_eq!(stored_blocksize(32768, 8), 8192);
    assert_eq!(stored_blocksize(1_000_000, 3), 8190);
}

#[test]
fn blosc_round_trip_for_every_element_size() {
    for typesize in [1u8, 2, 4, 8] {
        for count in [0usize, 1, 3, 16, 5000] {
            let bytes: Vec<u8> = (0..count * typesize as usize).map(|k| (k * 7 + 1) as u8).collect();
            let container = blosc_compress_stored(&bytes, typesize).unwrap();
            assert_eq!(blosc_decompress(&NoCompression, &container), Ok(bytes));
        }
    }
}

#[test]
fn blosc_compress_rejects_an_element_size_of_zero() {
    assert_eq!(blosc_compress_stored(&[1, 2], 0), Err(BloscError::InvalidTypesize));
}

#[test]
fn blosc_range_of_a_stored_container_with_several_blocks() {
    let bytes: Vec<u8> = (0..40000usize).map(|k| (k % 251) as u8).collect();
    let container = blosc_compress_stored(&bytes, 4).unwrap();
    assert_eq!(blosc_header(&container).unwrap().blocksize, 8192);
    for (start, end) in [(0, 40000), (8190, 8194), (8192, 16384), (16383, 32769), (39999, 40000), (7, 7)] {
        assert_eq!(
            blosc_decompress_range(&NoCompression, &container, start, end),
            Ok(bytes[start..end].to_vec())
        );
    }
}

#[test]
fn blosc_range_asks_only_for_the_blocks_it_touches() {
    let container = compressed_container(40, 16);
    let all = Repeats { broken: None, blocksize: 16, nbytes: 40 };
    let mut expected = vec![0u8; 16];
    expected.extend(vec![1u8; 16]);
    expected.extend(vec![2u8; 8]);
    assert_eq!(blosc_decompress(&all, &container), Ok(expected.clone()));
    assert_eq!(
        blosc_decompress_range(&all, &container, 14, 34),
        Ok(expected[14..34].to_vec())
    );
    let broken = Repeats { broken: Some(1), blocksize: 16, nbytes: 40 };
    assert_eq!(blosc_decompress_range(&broken, &container, 0, 16), Ok(vec![0u8; 16]));
    assert_eq!(blosc_decompress_range(&broken, &container, 32, 40), Ok(vec![2u8; 8]));
    assert_eq!(
        blosc_decompress_range(&broken, &container, 15, 17),
        Err(BloscError::BlockFailed(1))
    );
    assert_eq!(blosc_decompress(&broken, &container), Err(BloscError::BlockFailed(1)));
    assert_eq!(
        blosc_decompress(&NoCompression, &container),
        Err(BloscError::BlockFailed(0))
    );
}

#[test]
fn blosc_block_of_the_wrong_length_fails() {
    let container = compressed_container(40, 16);
    let wrong = Repeats { broken: None, blocksize: 16, nbytes: 41 };
    assert_eq!(blosc_decompress_range(&wrong, &container, 0, 32), Ok(vec![0, 0, 0, 0, 0, 0, 0, 0, 0, 0, 0, 0, 0, 0, 0, 0, 1, 1, 1, 1, 1, 1, 1, 1, 1, 1, 1, 1, 1, 1, 1, 1]));
    assert_eq!(
        blosc_decompress_range(&wrong, &container, 30, 40),
        Err(BloscError::BlockFailed(2))
    );
}

#[test]
fn blosc_layout_needs_room_for_the_block_table() {
    let mut container = compressed_container(40, 16);
    assert!(blosc_layout(&container).is_some());
    container.truncate(27);
    container[12..16].copy_from_slice(&27u32.to_le_bytes());
    assert!(blosc_layout(&container).is_none());
    let mut zero_block = compressed_container(40, 16);
    zero_block[8..12].copy_from_slice(&0u32.to_le_bytes());
    assert!(blosc_layout(&zero_block).is_none());
    let mut stored = blosc_compress_stored(&[1, 2, 3, 4], 2).unwrap();
    stored[4] = 3;
    assert!(blosc_layout(&stored).is_none());
}
