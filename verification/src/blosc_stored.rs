//! Writing stored Blosc containers, and the round trip through writing and
//! decoding.

use crate::blosc::{
    lemma_header_round_trip, spec_header, spec_header_bytes, spec_validate, write_header,
    BloscHeader, BLOSC_BLOSCLZ_VERSION_FORMAT, BLOSC_L1, BLOSC_MAX_BUFFERSIZE, BLOSC_MAX_SPLITS,
    BLOSC_MEMCPYED, BLOSC_MEMCPYED_UNSPLIT, BLOSC_MIN_BUFFERSIZE, BLOSC_STORED_BLOCKSIZE,
    BLOSC_VERSION_FORMAT,
};
use crate::blosc_blocks::{
    lemma_block_of_byte, spec_block_bytes, spec_blocks_decode, spec_byte, spec_decoded,
    spec_end_block, spec_first_block, spec_is_stored, spec_layout_ok, BlockDecompressor,
    BloscError,
};
use crate::byte_range::copy_range;
use vstd::arithmetic::div_mod::lemma_div_pos_is_pos;
use vstd::arithmetic::div_mod::lemma_fundamental_div_mod;
use vstd::prelude::*;

verus! {

/// The block size of a stored container of `nbytes` bytes of elements of
/// `typesize` bytes: the whole buffer, or for a large buffer a fixed size,
/// cut down to a whole number of elements.
pub open spec fn spec_stored_blocksize(nbytes: u32, typesize: u8) -> u32 {
    if nbytes < typesize {
        1
    } else {
        let whole = if nbytes >= BLOSC_L1 {
            BLOSC_STORED_BLOCKSIZE
        } else {
            nbytes
        };
        if whole > typesize {
            ((whole / (typesize as u32)) * typesize) as u32
        } else {
            whole
        }
    }
}

/// The flags of a stored container: stored, and not split unless the
/// elements are small and a block holds many of them.
pub open spec fn spec_stored_flags(nbytes: u32, typesize: u8) -> u8 {
    if typesize <= BLOSC_MAX_SPLITS && spec_stored_blocksize(nbytes, typesize) / (
    typesize as u32) >= BLOSC_MIN_BUFFERSIZE {
        BLOSC_MEMCPYED
    } else {
        BLOSC_MEMCPYED_UNSPLIT
    }
}

/// The header of a stored container of `nbytes` bytes of elements of
/// `typesize` bytes.
pub open spec fn spec_stored_header(nbytes: u32, typesize: u8) -> BloscHeader {
    BloscHeader {
        version: BLOSC_VERSION_FORMAT,
        versionlz: BLOSC_BLOSCLZ_VERSION_FORMAT,
        flags: spec_stored_flags(nbytes, typesize),
        typesize: typesize,
        nbytes: nbytes,
        blocksize: spec_stored_blocksize(nbytes, typesize),
        cbytes: (nbytes + 16) as u32,
    }
}

/// The stored container of `bytes`: the header and then `bytes` unchanged.
pub open spec fn spec_stored_container(bytes: Seq<u8>, typesize: u8) -> Seq<u8> {
    spec_header_bytes(spec_stored_header(bytes.len() as u32, typesize)) + bytes
}

/// Computes the block size of a stored container.
pub fn stored_blocksize(nbytes: u32, typesize: u8) -> (blocksize: u32)
    requires
        typesize > 0,
    ensures
        blocksize == spec_stored_blocksize(nbytes, typesize),
        nbytes > 0 ==> 0 < blocksize <= nbytes,
        blocksize <= BLOSC_L1,
{
    let ts: u32 = typesize as u32;
    if nbytes < ts {
        1
    } else {
        let whole: u32 = if nbytes >= BLOSC_L1 {
            BLOSC_STORED_BLOCKSIZE
        } else {
            nbytes
        };
        if whole > ts {
            let count: u32 = whole / ts;
            proof {
                lemma_fundamental_div_mod(whole as int, ts as int);
                lemma_div_pos_is_pos(whole as int, ts as int);
                assert(count * ts <= whole) by (nonlinear_arith)
                    requires
                        whole == ts * count + (whole as int % ts as int),
                        0 <= whole as int % ts as int,
                ;
                assert(count * ts >= ts) by (nonlinear_arith)
                    requires
                        whole == ts * count + (whole as int % ts as int),
                        (whole as int % ts as int) < ts,
                        whole > ts,
                        count >= 0,
                ;
            }
            count * ts
        } else {
            whole
        }
    }
}

/// Writes `bytes` as a stored container of elements of `typesize` bytes.
/// Fails where the element size is zero or `bytes` is longer than a container
/// can declare.
pub fn blosc_compress_stored(bytes: &[u8], typesize: u8) -> (container: Result<
    Vec<u8>,
    BloscError,
>)
    ensures
        typesize == 0 ==> container == Err::<Vec<u8>, BloscError>(BloscError::InvalidTypesize),
        typesize > 0 && bytes@.len() > BLOSC_MAX_BUFFERSIZE ==> container == Err::<
            Vec<u8>,
            BloscError,
        >(BloscError::TooLarge),
        typesize > 0 && bytes@.len() <= BLOSC_MAX_BUFFERSIZE ==> (container matches Ok(v) && v@
            == spec_stored_container(bytes@, typesize)),
{
    if typesize == 0 {
        return Err(BloscError::InvalidTypesize);
    }
    if bytes.len() > BLOSC_MAX_BUFFERSIZE as usize {
        return Err(BloscError::TooLarge);
    }
    let nbytes: u32 = bytes.len() as u32;
    let blocksize = stored_blocksize(nbytes, typesize);
    let split = typesize as u32 <= BLOSC_MAX_SPLITS && blocksize / (typesize as u32)
        >= BLOSC_MIN_BUFFERSIZE;
    let flags: u8 = if split {
        BLOSC_MEMCPYED
    } else {
        BLOSC_MEMCPYED_UNSPLIT
    };
    let header = BloscHeader {
        version: BLOSC_VERSION_FORMAT,
        versionlz: BLOSC_BLOSCLZ_VERSION_FORMAT,
        flags: flags,
        typesize: typesize,
        nbytes: nbytes,
        blocksize: blocksize,
        cbytes: nbytes + 16,
    };
    let mut out: Vec<u8> = Vec::new();
    write_header(&mut out, &header);
    let mut body = copy_range(bytes, 0, bytes.len());
    assert(body@ =~= bytes@);
    out.append(&mut body);
    assert(out@ =~= spec_stored_container(bytes@, typesize));
    Ok(out)
}

/// A stored container has the header it was written with, and a layout that
/// can be decoded.
pub proof fn lemma_stored_layout(bytes: Seq<u8>, typesize: u8)
    requires
        typesize > 0,
        bytes.len() <= BLOSC_MAX_BUFFERSIZE,
    ensures
        spec_header(spec_stored_container(bytes, typesize)) == Some(
            spec_stored_header(bytes.len() as u32, typesize),
        ),
        spec_is_stored(spec_stored_header(bytes.len() as u32, typesize)),
        spec_validate(spec_stored_container(bytes, typesize)) == Some(bytes.len() as usize),
        spec_layout_ok(spec_stored_container(bytes, typesize)),
{
    let nbytes = bytes.len() as u32;
    let h = spec_stored_header(nbytes, typesize);
    let src = spec_stored_container(bytes, typesize);
    assert(spec_header_bytes(h).len() == 16);
    assert(src.subrange(0, 16) =~= spec_header_bytes(h));
    lemma_header_round_trip(src, h);
    assert(2u8 & 2u8 == 2u8) by (bit_vector);
    assert(18u8 & 2u8 == 2u8) by (bit_vector);
    if nbytes > 0 {
        let ts = typesize as int;
        if nbytes >= ts {
            let whole: int = if nbytes >= BLOSC_L1 {
                BLOSC_STORED_BLOCKSIZE as int
            } else {
                nbytes as int
            };
            if whole > ts {
                lemma_fundamental_div_mod(whole, ts);
                lemma_div_pos_is_pos(whole, ts);
                assert((whole / ts) * ts <= whole) by (nonlinear_arith)
                    requires
                        whole == ts * (whole / ts) + (whole % ts),
                        0 <= whole % ts,
                ;
                assert((whole / ts) * ts >= ts) by (nonlinear_arith)
                    requires
                        whole == ts * (whole / ts) + (whole % ts),
                        whole % ts < ts,
                        whole > ts,
                        whole / ts >= 0,
                ;
            }
        }
    }
}

/// Round trip: decoding the stored container of `bytes` gives `bytes` back,
/// for every element size and every length that a container can declare,
/// whatever the decompressor at hand.
pub proof fn law_round_trip<D: BlockDecompressor>(d: &D, bytes: Seq<u8>, typesize: u8)
    requires
        typesize > 0,
        bytes.len() <= BLOSC_MAX_BUFFERSIZE,
    ensures
        spec_layout_ok(spec_stored_container(bytes, typesize)),
        spec_decoded(d, spec_stored_container(bytes, typesize)) == Some(bytes),
{
    lemma_stored_layout(bytes, typesize);
    let src = spec_stored_container(bytes, typesize);
    let h = spec_stored_header(bytes.len() as u32, typesize);
    let n = bytes.len() as int;
    if n > 0 {
        let bs = h.blocksize as int;
        assert(spec_blocks_decode(d, src, spec_first_block(h, 0), spec_end_block(h, n)));
        let decoded = spec_decoded(d, src)->0;
        assert(decoded.len() == n);
        assert forall|k: int| 0 <= k < n implies decoded[k] == bytes[k] by {
            lemma_fundamental_div_mod(k, bs);
            let j = k / bs;
            assert(j * bs <= k < j * bs + bs) by (nonlinear_arith)
                requires
                    k == bs * j + (k % bs),
                    0 <= k % bs < bs,
            ;
            lemma_block_of_byte(k, bs, j);
            assert((j + 1) * bs == j * bs + bs) by (nonlinear_arith);
            assert(src[16 + k] == bytes[k]);
            assert(decoded[k] == spec_byte(d, src, 0 + k));
            let block = spec_block_bytes(d, src, j)->0;
            assert(block[k - j * bs] == src[16 + j * bs + (k - j * bs)]);
        }
        assert(decoded =~= bytes);
    } else {
        assert(bytes =~= Seq::<u8>::empty());
    }
}

} // verus!
