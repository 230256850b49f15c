//! The Blosc container: its sixteen-byte header and the validation of a
//! buffer as a container.
//!
//! A container starts with the format version, the compressor's format version,
//! a flags byte and the element size, one byte each, followed by the decoded
//! length, the block size and the container's own length as little-endian
//! 32-bit integers. A *stored* container (flag [`BLOSC_MEMCPYED`]) holds the
//! decoded bytes right after the header. Any other container holds a table of
//! block offsets and the compressed blocks.

use vstd::prelude::*;

verus! {

/// The format version that this library reads and writes.
pub const BLOSC_VERSION_FORMAT: u8 = 2;

/// The length of the header.
pub const BLOSC_MIN_HEADER_LENGTH: usize = 16;

/// The largest decoded length that a container can declare.
pub const BLOSC_MAX_BUFFERSIZE: u32 = 2147483631;

/// The largest block size that a container can declare.
pub const BLOSC_MAX_BLOCKSIZE: u32 = 715827542;

/// The largest positive value of a size field.
pub const BLOSC_MAX_SIZE_FIELD: u32 = 2147483647;

/// Flag: the container is stored, its bytes are a plain copy.
pub const BLOSC_MEMCPYED: u8 = 2;

/// The flags of a stored container whose blocks count as not split into one
/// stream per byte of an element: the flag above and the flag of not
/// splitting, which is 16.
pub const BLOSC_MEMCPYED_UNSPLIT: u8 = 18;

/// The compressor format version written into stored containers.
pub const BLOSC_BLOSCLZ_VERSION_FORMAT: u8 = 1;

/// The largest element size for which blocks are split.
pub const BLOSC_MAX_SPLITS: u32 = 16;

/// The smallest number of elements of a block that is split.
pub const BLOSC_MIN_BUFFERSIZE: u32 = 128;

/// The block size of large stored containers.
pub const BLOSC_STORED_BLOCKSIZE: u32 = 8192;

/// The decoded length from which on a stored container has several blocks.
pub const BLOSC_L1: u32 = 32768;

/// The fields of a container's header.
#[derive(Clone, Copy, Debug, PartialEq, Eq, Structural)]
pub struct BloscHeader {
    /// The format version.
    pub version: u8,
    /// The format version of the compressor.
    pub versionlz: u8,
    /// The flags.
    pub flags: u8,
    /// The size of an element in bytes.
    pub typesize: u8,
    /// The length of the decoded form.
    pub nbytes: u32,
    /// The length of a block of the decoded form; the last block may be shorter.
    pub blocksize: u32,
    /// The length of the container, header included.
    pub cbytes: u32,
}

/// The little-endian 32-bit integer at `at` in `bytes`.
pub open spec fn spec_le_u32(bytes: Seq<u8>, at: int) -> int {
    bytes[at] + bytes[at + 1] * 256 + bytes[at + 2] * 65536 + bytes[at + 3] * 16777216
}

/// The four bytes of `value` in little-endian order.
pub open spec fn spec_le_bytes(value: u32) -> Seq<u8> {
    seq![
        (value % 256) as u8,
        ((value / 256) % 256) as u8,
        ((value / 65536) % 256) as u8,
        ((value / 16777216) % 256) as u8,
    ]
}

/// The header that `src` starts with, where `src` is long enough to hold one.
pub open spec fn spec_header(src: Seq<u8>) -> Option<BloscHeader> {
    if src.len() >= 16 {
        Some(
            BloscHeader {
                version: src[0],
                versionlz: src[1],
                flags: src[2],
                typesize: src[3],
                nbytes: spec_le_u32(src, 4) as u32,
                blocksize: spec_le_u32(src, 8) as u32,
                cbytes: spec_le_u32(src, 12) as u32,
            },
        )
    } else {
        None
    }
}

/// The sixteen bytes that encode `header`.
pub open spec fn spec_header_bytes(header: BloscHeader) -> Seq<u8> {
    seq![header.version, header.versionlz, header.flags, header.typesize] + spec_le_bytes(
        header.nbytes,
    ) + spec_le_bytes(header.blocksize) + spec_le_bytes(header.cbytes)
}

/// The decoded length that `src` declares, where `src` passes validation: it
/// holds a header of this format version whose declared container length is
/// the length of `src`, and whose declared decoded length is within the limit.
pub open spec fn spec_validate(src: Seq<u8>) -> Option<usize> {
    match spec_header(src) {
        Some(h) => if h.version == BLOSC_VERSION_FORMAT && h.cbytes <= BLOSC_MAX_SIZE_FIELD
            && h.cbytes == src.len() && h.nbytes <= BLOSC_MAX_BUFFERSIZE {
            Some(h.nbytes as usize)
        } else {
            None
        },
        None => None,
    }
}

/// The decoded length that the header of `src` declares, where `src` holds a
/// header of this format version none of whose three size fields is zero or
/// above the largest positive size.
pub open spec fn spec_nbytes(src: Seq<u8>) -> Option<usize> {
    match spec_header(src) {
        Some(h) => if h.version == BLOSC_VERSION_FORMAT && 0 < h.nbytes <= BLOSC_MAX_SIZE_FIELD
            && 0 < h.blocksize <= BLOSC_MAX_SIZE_FIELD && 0 < h.cbytes <= BLOSC_MAX_SIZE_FIELD {
            Some(h.nbytes as usize)
        } else {
            None
        },
        None => None,
    }
}

/// The element size that the header of `src` declares, where `src` holds a
/// header of this format version with a positive element size.
pub open spec fn spec_typesize(src: Seq<u8>) -> Option<usize> {
    match spec_header(src) {
        Some(h) => if h.version == BLOSC_VERSION_FORMAT && h.typesize > 0 {
            Some(h.typesize as usize)
        } else {
            None
        },
        None => None,
    }
}

/// Reads the little-endian 32-bit integer at `at`.
pub fn read_le_u32(src: &[u8], at: usize) -> (value: u32)
    requires
        at + 4 <= src@.len(),
    ensures
        value == spec_le_u32(src@, at as int),
{
    let b0: u32 = src[at] as u32;
    let b1: u32 = src[at + 1] as u32;
    let b2: u32 = src[at + 2] as u32;
    let b3: u32 = src[at + 3] as u32;
    b0 + b1 * 256 + b2 * 65536 + b3 * 16777216
}

/// Appends the four little-endian bytes of `value` to `out`.
pub fn write_le_u32(out: &mut Vec<u8>, value: u32)
    ensures
        final(out)@ == old(out)@ + spec_le_bytes(value),
{
    let ghost before = out@;
    out.push((value % 256) as u8);
    out.push(((value / 256) % 256) as u8);
    out.push(((value / 65536) % 256) as u8);
    out.push(((value / 16777216) % 256) as u8);
    assert(out@ =~= before + spec_le_bytes(value));
}

/// Reading the little-endian bytes of a value gives the value back.
pub proof fn lemma_le_round_trip(bytes: Seq<u8>, at: int, value: u32)
    requires
        0 <= at,
        at + 4 <= bytes.len(),
        bytes.subrange(at, at + 4) == spec_le_bytes(value),
    ensures
        spec_le_u32(bytes, at) == value,
{
    let part = bytes.subrange(at, at + 4);
    assert(part[0] == bytes[at]);
    assert(part[1] == bytes[at + 1]);
    assert(part[2] == bytes[at + 2]);
    assert(part[3] == bytes[at + 3]);
}

/// Reads the header of `src`.
pub fn blosc_header(src: &[u8]) -> (header: Option<BloscHeader>)
    ensures
        header == spec_header(src@),
{
    if src.len() >= BLOSC_MIN_HEADER_LENGTH {
        Some(
            BloscHeader {
                version: src[0],
                versionlz: src[1],
                flags: src[2],
                typesize: src[3],
                nbytes: read_le_u32(src, 4),
                blocksize: read_le_u32(src, 8),
                cbytes: read_le_u32(src, 12),
            },
        )
    } else {
        None
    }
}

/// Appends the sixteen bytes of `header` to `out`.
pub fn write_header(out: &mut Vec<u8>, header: &BloscHeader)
    ensures
        final(out)@ == old(out)@ + spec_header_bytes(*header),
{
    let ghost before = out@;
    out.push(header.version);
    out.push(header.versionlz);
    out.push(header.flags);
    out.push(header.typesize);
    write_le_u32(out, header.nbytes);
    write_le_u32(out, header.blocksize);
    write_le_u32(out, header.cbytes);
    assert(out@ =~= before + spec_header_bytes(*header));
}

/// A buffer that starts with the bytes of a header has that header.
pub proof fn lemma_header_round_trip(src: Seq<u8>, header: BloscHeader)
    requires
        src.len() >= 16,
        src.subrange(0, 16) == spec_header_bytes(header),
    ensures
        spec_header(src) == Some(header),
{
    let head = src.subrange(0, 16);
    let bytes = spec_header_bytes(header);
    assert forall|i: int| 0 <= i < 16 implies src[i] == bytes[i] by {
        assert(head[i] == src[i]);
    }
    assert(src.subrange(4, 8) =~= spec_le_bytes(header.nbytes));
    assert(src.subrange(8, 12) =~= spec_le_bytes(header.blocksize));
    assert(src.subrange(12, 16) =~= spec_le_bytes(header.cbytes));
    lemma_le_round_trip(src, 4, header.nbytes);
    lemma_le_round_trip(src, 8, header.blocksize);
    lemma_le_round_trip(src, 12, header.cbytes);
}

/// Validates `src` as a container and returns the decoded length it declares.
pub fn blosc_validate(src: &[u8]) -> (destsize: Option<usize>)
    ensures
        destsize == spec_validate(src@),
{
    match blosc_header(src) {
        Some(h) => {
            if h.version == BLOSC_VERSION_FORMAT && h.cbytes <= BLOSC_MAX_SIZE_FIELD
                && h.cbytes as usize == src.len() && h.nbytes <= BLOSC_MAX_BUFFERSIZE {
                Some(h.nbytes as usize)
            } else {
                None
            }
        },
        None => None,
    }
}

/// The decoded length that the header of `src` declares.
pub fn blosc_nbytes(src: &[u8]) -> (nbytes: Option<usize>)
    ensures
        nbytes == spec_nbytes(src@),
{
    match blosc_header(src) {
        Some(h) => {
            if h.version == BLOSC_VERSION_FORMAT && 0 < h.nbytes && h.nbytes
                <= BLOSC_MAX_SIZE_FIELD && 0 < h.blocksize && h.blocksize <= BLOSC_MAX_SIZE_FIELD
                && 0 < h.cbytes && h.cbytes <= BLOSC_MAX_SIZE_FIELD {
                Some(h.nbytes as usize)
            } else {
                None
            }
        },
        None => None,
    }
}

/// The element size that the header of `src` declares.
pub fn blosc_typesize(src: &[u8]) -> (typesize: Option<usize>)
    ensures
        typesize == spec_typesize(src@),
{
    match blosc_header(src) {
        Some(h) => {
            if h.version == BLOSC_VERSION_FORMAT && h.typesize > 0 {
                Some(h.typesize as usize)
            } else {
                None
            }
        },
        None => None,
    }
}

} // verus!
