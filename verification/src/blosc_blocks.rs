//! Blocks of a Blosc container: which blocks a byte range of the decoded form
//! touches, and decoding of just those blocks.

use crate::blosc::{
    blosc_header, blosc_validate, spec_header, spec_validate, BloscHeader, BLOSC_MAX_BLOCKSIZE,
    BLOSC_MEMCPYED,
};
use crate::byte_range::copy_range;
use crate::text::{concat3, decimal, spec_decimal};
use vstd::arithmetic::div_mod::lemma_div_is_ordered;
use vstd::arithmetic::div_mod::lemma_div_pos_is_pos;
use vstd::arithmetic::div_mod::lemma_fundamental_div_mod;
use vstd::arithmetic::div_mod::lemma_fundamental_div_mod_converse;
use vstd::prelude::*;
use vstd::string::*;

verus! {

/// Why a container could not be written or decoded.
#[derive(Clone, Copy, Debug, PartialEq, Eq, Structural)]
pub enum BloscError {
    /// The buffer is not a well-formed container.
    InvalidContainer,
    /// The block of this index did not decompress to its declared length.
    BlockFailed(usize),
    /// The bytes to store are more than a container can declare.
    TooLarge,
    /// The element size is zero.
    InvalidTypesize,
}

impl BloscError {
    /// The message of the error.
    pub open spec fn spec_text(&self) -> Seq<char> {
        match *self {
            BloscError::InvalidContainer => "blosc encoded value is invalid"@,
            BloscError::BlockFailed(index) => "blosc block "@ + spec_decimal(index as nat)
                + " did not decode"@,
            BloscError::TooLarge => "the buffer is too large for a blosc container"@,
            BloscError::InvalidTypesize => "the element size of a blosc container is zero"@,
        }
    }

    /// The message of the error.
    pub fn to_string(&self) -> (text: String)
        ensures
            text@ == self.spec_text(),
    {
        match self {
            BloscError::InvalidContainer => String::from_str("blosc encoded value is invalid"),
            BloscError::BlockFailed(index) => {
                let digits = decimal(*index as u128);
                concat3("blosc block ", digits.as_str(), " did not decode")
            },
            BloscError::TooLarge => String::from_str(
                "the buffer is too large for a blosc container",
            ),
            BloscError::InvalidTypesize => String::from_str(
                "the element size of a blosc container is zero",
            ),
        }
    }
}

/// Whether the container is stored rather than compressed.
pub open spec fn spec_is_stored(h: BloscHeader) -> bool {
    h.flags & BLOSC_MEMCPYED == BLOSC_MEMCPYED
}

/// The number of blocks of the decoded form.
pub open spec fn spec_nblocks(h: BloscHeader) -> int {
    if h.blocksize == 0 {
        0
    } else {
        (h.nbytes + h.blocksize - 1) / (h.blocksize as int)
    }
}

/// The length of block `j` of the decoded form: the block size, or what is
/// left of the decoded form for the last block.
pub open spec fn spec_block_len(h: BloscHeader, j: int) -> int {
    if (j + 1) * h.blocksize <= h.nbytes {
        h.blocksize as int
    } else {
        h.nbytes - j * h.blocksize
    }
}

/// Whether `src` is a container whose layout can be decoded: it passes
/// validation, its element size is positive, and unless its decoded form is
/// empty, its block size is positive and within the decoded length and the
/// limit, a stored container is exactly header and decoded bytes, and a
/// compressed one has room for its table of block offsets.
pub open spec fn spec_layout_ok(src: Seq<u8>) -> bool {
    &&& spec_validate(src) is Some
    &&& spec_header(src) matches Some(h)
    &&& h.typesize > 0
    &&& h.nbytes > 0 ==> {
        &&& 0 < h.blocksize <= h.nbytes
        &&& h.blocksize <= BLOSC_MAX_BLOCKSIZE
        &&& spec_is_stored(h) ==> h.nbytes + 16 == h.cbytes
        &&& !spec_is_stored(h) ==> 16 + 4 * spec_nblocks(h) <= h.cbytes
    }
}

/// What turns a compressed block back into bytes. The compressors live
/// outside this library; a stored container never asks for one.
///
/// A decompressor decodes a block the same way every time: what it makes of
/// a block is a function of the container and the block's index. Of a
/// decompressor that is not verified this is taken on trust, and nothing
/// else is known of that function.
pub trait BlockDecompressor {
    /// The decoded bytes of block `index` of `container`, where the block
    /// decompresses.
    open spec fn spec_block(&self, container: Seq<u8>, index: int) -> Option<Seq<u8>> {
        arbitrary::<spec_fn(Seq<u8>, int) -> Option<Seq<u8>>>()(container, index)
    }

    /// Decompresses block `index` of `container`.
    fn decompress_block(&self, container: &[u8], index: usize) -> (block: Option<Vec<u8>>)
        requires
            spec_layout_ok(container@),
            !spec_is_stored(spec_header(container@)->0),
            index < spec_nblocks(spec_header(container@)->0),
        ensures
            block matches Some(b) ==> self.spec_block(container@, index as int) == Some(b@),
            block is None ==> self.spec_block(container@, index as int) is None,
    ;
}

/// The decompressor that knows no compressor: with it, only stored
/// containers decode.
#[derive(Clone, Copy, Debug)]
pub struct NoCompression;

impl BlockDecompressor for NoCompression {
    open spec fn spec_block(&self, container: Seq<u8>, index: int) -> Option<Seq<u8>> {
        None
    }

    fn decompress_block(&self, container: &[u8], index: usize) -> (block: Option<Vec<u8>>) {
        None
    }
}

/// The decoded bytes of block `j` of `src`: for a stored container the bytes
/// at the block's place after the header, otherwise what the decompressor
/// yields, provided it has the block's length.
pub open spec fn spec_block_bytes<D: BlockDecompressor>(d: &D, src: Seq<u8>, j: int) -> Option<
    Seq<u8>,
> {
    let h = spec_header(src)->0;
    if spec_is_stored(h) {
        Some(src.subrange(16 + j * h.blocksize, 16 + j * h.blocksize + spec_block_len(h, j)))
    } else {
        match d.spec_block(src, j) {
            Some(b) => if b.len() == spec_block_len(h, j) {
                Some(b)
            } else {
                None
            },
            None => None,
        }
    }
}

/// Byte `k` of the decoded form of `src`.
pub open spec fn spec_byte<D: BlockDecompressor>(d: &D, src: Seq<u8>, k: int) -> u8 {
    let bs = spec_header(src)->0.blocksize as int;
    spec_block_bytes(d, src, k / bs)->0[k % bs]
}

/// Whether every block from `from` up to, not including, `to` decodes.
pub open spec fn spec_blocks_decode<D: BlockDecompressor>(
    d: &D,
    src: Seq<u8>,
    from: int,
    to: int,
) -> bool {
    forall|j: int| from <= j < to ==> (#[trigger] spec_block_bytes(d, src, j)) is Some
}

/// The first block that the decoded range `[start, end)` touches.
pub open spec fn spec_first_block(h: BloscHeader, start: int) -> int {
    start / (h.blocksize as int)
}

/// One past the last block that the non-empty decoded range `[start, end)`
/// touches.
pub open spec fn spec_end_block(h: BloscHeader, end: int) -> int {
    (end - 1) / (h.blocksize as int) + 1
}

/// Bytes `[start, end)` of the decoded form of `src`, where every block that
/// the range touches decodes. No other block is looked at.
pub open spec fn spec_range<D: BlockDecompressor>(d: &D, src: Seq<u8>, start: int, end: int) -> Option<
    Seq<u8>,
>
    recommends
        spec_layout_ok(src),
        0 <= start <= end <= spec_header(src)->0.nbytes,
{
    let h = spec_header(src)->0;
    if start >= end {
        Some(Seq::empty())
    } else if spec_blocks_decode(d, src, spec_first_block(h, start), spec_end_block(h, end)) {
        Some(Seq::new((end - start) as nat, |i: int| spec_byte(d, src, start + i)))
    } else {
        None
    }
}

/// Whether `j` is the first of the blocks that the non-empty decoded range
/// `[start, end)` touches that does not decode.
pub open spec fn spec_first_failure<D: BlockDecompressor>(
    d: &D,
    src: Seq<u8>,
    start: int,
    end: int,
    j: int,
) -> bool {
    let h = spec_header(src)->0;
    &&& spec_first_block(h, start) <= j < spec_end_block(h, end)
    &&& spec_block_bytes(d, src, j) is None
    &&& spec_blocks_decode(d, src, spec_first_block(h, start), j)
}

/// The decoded form of `src`, where all of its blocks decode.
pub open spec fn spec_decoded<D: BlockDecompressor>(d: &D, src: Seq<u8>) -> Option<Seq<u8>>
    recommends
        spec_layout_ok(src),
{
    spec_range(d, src, 0, spec_header(src)->0.nbytes as int)
}

/// Tells whether the header marks a stored container.
pub fn is_stored(h: &BloscHeader) -> (stored: bool)
    ensures
        stored == spec_is_stored(*h),
{
    h.flags & BLOSC_MEMCPYED == BLOSC_MEMCPYED
}

/// Reads the header of `src` where the layout of `src` can be decoded.
pub fn blosc_layout(src: &[u8]) -> (layout: Option<BloscHeader>)
    ensures
        layout is Some <==> spec_layout_ok(src@),
        layout matches Some(h) ==> spec_header(src@) == Some(h),
{
    if blosc_validate(src).is_none() {
        return None;
    }
    let h = match blosc_header(src) {
        Some(h) => h,
        None => { return None; },
    };
    if h.typesize == 0 {
        return None;
    }
    if h.nbytes == 0 {
        return Some(h);
    }
    if h.blocksize == 0 || h.blocksize > h.nbytes || h.blocksize > BLOSC_MAX_BLOCKSIZE {
        return None;
    }
    let nbytes: u64 = h.nbytes as u64;
    let blocksize: u64 = h.blocksize as u64;
    let cbytes: u64 = h.cbytes as u64;
    if is_stored(&h) {
        if nbytes + 16 == cbytes {
            Some(h)
        } else {
            None
        }
    } else {
        let nblocks: u64 = (nbytes + blocksize - 1) / blocksize;
        assert(nblocks <= nbytes + blocksize - 1) by (nonlinear_arith)
            requires
                nblocks == (nbytes + blocksize - 1) / (blocksize as int),
                blocksize > 0,
                nbytes > 0,
        ;
        if 16 + 4 * nblocks <= cbytes {
            Some(h)
        } else {
            None
        }
    }
}

/// The indices `k` of block `j` have `j` as quotient and their place in the
/// block as remainder.
pub proof fn lemma_block_of_byte(k: int, bs: int, j: int)
    requires
        bs > 0,
        j * bs <= k < j * bs + bs,
    ensures
        k / bs == j,
        k % bs == k - j * bs,
{
    lemma_fundamental_div_mod_converse(k, bs, j, k - j * bs);
}

/// Decodes bytes `[start, end)` of the decoded form of `src`, touching only
/// the blocks that the range intersects. A block that does not decode fails
/// the call with its index.
pub fn blosc_decompress_range<D: BlockDecompressor>(
    d: &D,
    src: &[u8],
    start: usize,
    end: usize,
) -> (bytes: Result<Vec<u8>, BloscError>)
    requires
        spec_layout_ok(src@),
        start <= end <= spec_header(src@)->0.nbytes,
    ensures
        spec_range(d, src@, start as int, end as int) matches Some(b) ==> bytes matches Ok(v)
            && v@ == b,
        spec_range(d, src@, start as int, end as int) is None ==> (match bytes {
            Err(BloscError::BlockFailed(j)) => spec_first_failure(
                d,
                src@,
                start as int,
                end as int,
                j as int,
            ),
            _ => false,
        }),
{
    let mut out: Vec<u8> = Vec::new();
    if start >= end {
        assert(out@ =~= Seq::<u8>::empty());
        return Ok(out);
    }
    let h = match blosc_header(src) {
        Some(h) => h,
        None => { return Err(BloscError::InvalidContainer); },
    };
    let stored = is_stored(&h);
    let bs: u64 = h.blocksize as u64;
    let nbytes: u64 = h.nbytes as u64;
    let first: u64 = start as u64 / bs;
    proof {
        lemma_fundamental_div_mod(start as int, bs as int);
        assert(first * bs <= start) by (nonlinear_arith)
            requires
                start == bs * first + (start as int % bs as int),
                0 <= start as int % bs as int,
        ;
        assert(start < first * bs + bs) by (nonlinear_arith)
            requires
                start == bs * first + (start as int % bs as int),
                (start as int % bs as int) < bs,
        ;
        assert(first <= first * bs) by (nonlinear_arith)
            requires
                bs >= 1,
                first >= 0,
        ;
        assert(src@.len() <= usize::MAX);
    }
    let mut j: u64 = first;
    let mut base: u64 = first * bs;
    let mut pos: u64 = start as u64;
    while base < end as u64
        invariant
            spec_layout_ok(src@),
            spec_header(src@) == Some(h),
            stored == spec_is_stored(h),
            bs == h.blocksize,
            nbytes == h.nbytes,
            bs > 0,
            start < end <= nbytes,
            src@.len() <= usize::MAX,
            first == spec_first_block(h, start as int),
            first <= j,
            base == j * bs,
            j <= base,
            base <= nbytes + bs,
            start <= pos <= end,
            pos < end ==> base <= pos < base + bs,
            pos == end ==> base >= end,
            pos == end ==> base - bs < end,
            out@ == Seq::new((pos - start) as nat, |i: int| spec_byte(d, src@, start + i)),
            spec_blocks_decode(d, src@, first as int, j as int),
        decreases end + bs - base,
    {
        let block_len: u64 = if base + bs <= nbytes {
            bs
        } else {
            nbytes - base
        };
        let hi: u64 = if base + block_len < end as u64 {
            base + block_len
        } else {
            end as u64
        };
        proof {
            assert((j + 1) * bs == j * bs + bs) by (nonlinear_arith);
            assert(block_len == spec_block_len(h, j as int));
        }
        let ghost before = out@;
        let mut piece = if stored {
            assert(spec_block_bytes(d, src@, j as int) is Some);
            copy_range(src, (16 + pos) as usize, (16 + hi) as usize)
        } else {
            assert(j < spec_nblocks(h)) by (nonlinear_arith)
                requires
                    base == j * bs,
                    base < nbytes,
                    bs > 0,
                    spec_nblocks(h) == (nbytes + bs - 1) / (bs as int),
            {
                lemma_fundamental_div_mod(nbytes + bs - 1, bs as int);
            }
            let block = match d.decompress_block(src, j as usize) {
                Some(block) => block,
                None => {
                    proof {
                        lemma_block_of_byte(base as int, bs as int, j as int);
                        lemma_div_is_ordered(base as int, end - 1, bs as int);
                    }
                    return Err(BloscError::BlockFailed(j as usize));
                },
            };
            if block.len() as u64 != block_len {
                proof {
                    lemma_block_of_byte(base as int, bs as int, j as int);
                    lemma_div_is_ordered(base as int, end - 1, bs as int);
                }
                return Err(BloscError::BlockFailed(j as usize));
            }
            assert(spec_block_bytes(d, src@, j as int) == Some(block@));
            copy_range(block.as_slice(), (pos - base) as usize, (hi - base) as usize)
        };
        assert forall|i: int| 0 <= i < hi - pos implies #[trigger] piece@[i] == spec_byte(
            d,
            src@,
            pos + i,
        ) by {
            lemma_block_of_byte(pos + i, bs as int, j as int);
        }
        out.append(&mut piece);
        assert(out@ =~= Seq::new((hi - start) as nat, |i: int| spec_byte(d, src@, start + i)));
        assert forall|jj: int| first <= jj < j + 1 implies (#[trigger] spec_block_bytes(
            d,
            src@,
            jj,
        )) is Some by {
            if jj < j {
                assert(spec_blocks_decode(d, src@, first as int, j as int));
            }
        }
        pos = hi;
        base = base + bs;
        j = j + 1;
    }
    proof {
        assert((j - 1) * bs == j * bs - bs) by (nonlinear_arith);
        lemma_block_of_byte(end - 1, bs as int, j - 1);
        assert(spec_end_block(h, end as int) == j);
    }
    Ok(out)
}

/// Decodes the whole decoded form of `src`.
pub fn blosc_decompress<D: BlockDecompressor>(d: &D, src: &[u8]) -> (bytes: Result<
    Vec<u8>,
    BloscError,
>)
    ensures
        !spec_layout_ok(src@) ==> bytes == Err::<Vec<u8>, BloscError>(
            BloscError::InvalidContainer,
        ),
        spec_layout_ok(src@) ==> (spec_decoded(d, src@) matches Some(b) ==> bytes matches Ok(v)
            && v@ == b),
        spec_layout_ok(src@) && spec_decoded(d, src@) is None ==> (match bytes {
            Err(BloscError::BlockFailed(j)) => spec_first_failure(
                d,
                src@,
                0,
                spec_header(src@)->0.nbytes as int,
                j as int,
            ),
            _ => false,
        }),
{
    match blosc_layout(src) {
        None => Err(BloscError::InvalidContainer),
        Some(h) => blosc_decompress_range(d, src, 0, h.nbytes as usize),
    }
}

/// Equivalence of partial and full decoding: where the whole of `src`
/// decodes, every range of its decoded form decodes, to the slice of the
/// whole at that range.
pub proof fn law_range_is_slice_of_decoded<D: BlockDecompressor>(
    d: &D,
    src: Seq<u8>,
    start: int,
    end: int,
)
    requires
        spec_layout_ok(src),
        0 <= start <= end <= spec_header(src)->0.nbytes,
        spec_decoded(d, src) is Some,
    ensures
        spec_range(d, src, start, end) == Some(spec_decoded(d, src)->0.subrange(start, end)),
{
    let h = spec_header(src)->0;
    let n = h.nbytes as int;
    let full = spec_decoded(d, src)->0;
    if start < end {
        let bs = h.blocksize as int;
        lemma_div_is_ordered(end - 1, n - 1, bs);
        lemma_div_pos_is_pos(start, bs);
        assert(spec_blocks_decode(d, src, 0, spec_end_block(h, n)));
        assert forall|j: int|
            spec_first_block(h, start) <= j < spec_end_block(h, end) implies (
        #[trigger] spec_block_bytes(d, src, j)) is Some by {}
        assert(spec_range(d, src, start, end)->0 =~= full.subrange(start, end));
    } else {
        assert(full.subrange(start, end) =~= Seq::<u8>::empty());
    }
}

} // verus!
