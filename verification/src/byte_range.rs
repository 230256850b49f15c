//! Byte ranges: sub-intervals of a byte buffer whose total length is supplied
//! when the range is resolved.

use crate::text::{decimal, spec_decimal};
use vstd::prelude::*;
use vstd::slice::{slice_subrange, slice_to_vec};
use vstd::string::*;

verus! {

/// An offset into a byte buffer.
pub type ByteOffset = u64;

/// A number of bytes.
pub type ByteLength = u64;

/// A sub-interval of a byte buffer of yet unknown length.
#[derive(Clone, Copy, Debug, PartialEq, Eq, Structural)]
pub enum ByteRange {
    /// Bytes from an offset; with a length, that many bytes, without one, up to the end.
    FromStart(ByteOffset, Option<ByteLength>),
    /// The last bytes of the buffer, as many as given.
    Suffix(ByteLength),
}

impl ByteRange {
    /// Whether the range lies within a buffer of `size` bytes.
    pub open spec fn spec_is_valid(self, size: u64) -> bool {
        match self {
            ByteRange::FromStart(offset, None) => offset <= size,
            ByteRange::FromStart(offset, Some(length)) => offset + length <= size,
            ByteRange::Suffix(length) => length <= size,
        }
    }

    /// The first byte of the range in a buffer of `size` bytes.
    pub open spec fn spec_start(self, size: u64) -> int {
        match self {
            ByteRange::FromStart(offset, _) => offset as int,
            ByteRange::Suffix(length) => size - length,
        }
    }

    /// One past the last byte of the range in a buffer of `size` bytes.
    pub open spec fn spec_end(self, size: u64) -> int {
        match self {
            ByteRange::FromStart(_, None) => size as int,
            ByteRange::FromStart(offset, Some(length)) => offset + length,
            ByteRange::Suffix(_) => size as int,
        }
    }

    /// The number of bytes of the range in a buffer of `size` bytes.
    pub open spec fn spec_length(self, size: u64) -> int {
        self.spec_end(size) - self.spec_start(size)
    }

    /// The bytes that the range selects from `bytes`.
    pub open spec fn spec_extract(self, bytes: Seq<u8>) -> Seq<u8>
        recommends
            bytes.len() <= u64::MAX,
            self.spec_is_valid(bytes.len() as u64),
    {
        bytes.subrange(self.spec_start(bytes.len() as u64), self.spec_end(bytes.len() as u64))
    }

    /// Tells whether the range lies within a buffer of `size` bytes.
    pub fn is_valid(&self, size: u64) -> (valid: bool)
        ensures
            valid == self.spec_is_valid(size),
    {
        match self {
            ByteRange::FromStart(offset, None) => *offset <= size,
            ByteRange::FromStart(offset, Some(length)) => *offset <= size && *length <= size
                - *offset,
            ByteRange::Suffix(length) => *length <= size,
        }
    }

    /// The first byte of the range in a buffer of `size` bytes.
    pub fn start(&self, size: u64) -> (start: u64)
        requires
            self.spec_is_valid(size),
        ensures
            start == self.spec_start(size),
            start <= size,
    {
        match self {
            ByteRange::FromStart(offset, _) => *offset,
            ByteRange::Suffix(length) => size - *length,
        }
    }

    /// One past the last byte of the range in a buffer of `size` bytes.
    pub fn end(&self, size: u64) -> (end: u64)
        requires
            self.spec_is_valid(size),
        ensures
            end == self.spec_end(size),
            self.spec_start(size) <= end <= size,
    {
        match self {
            ByteRange::FromStart(_, None) => size,
            ByteRange::FromStart(offset, Some(length)) => *offset + *length,
            ByteRange::Suffix(_) => size,
        }
    }

    /// The number of bytes of the range in a buffer of `size` bytes.
    pub fn length(&self, size: u64) -> (length: u64)
        requires
            self.spec_is_valid(size),
        ensures
            length == self.spec_length(size),
            length <= size,
    {
        match self {
            ByteRange::FromStart(offset, None) => size - *offset,
            ByteRange::FromStart(_, Some(length)) => *length,
            ByteRange::Suffix(length) => *length,
        }
    }

    /// The concrete bounds `(start, end)` of the range in a buffer of `size`
    /// bytes, or the error that names the range where it does not fit.
    pub fn resolve(&self, size: u64) -> (bounds: Result<(u64, u64), InvalidByteRangeError>)
        ensures
            self.spec_is_valid(size) ==> bounds == Ok::<(u64, u64), InvalidByteRangeError>(
                (self.spec_start(size) as u64, self.spec_end(size) as u64),
            ),
            self.spec_is_valid(size) ==> 0 <= self.spec_start(size) <= self.spec_end(size) <= size,
            !self.spec_is_valid(size) ==> bounds == Err::<(u64, u64), InvalidByteRangeError>(
                InvalidByteRangeError { byte_range: *self, bytes_len: size },
            ),
    {
        if self.is_valid(size) {
            Ok((self.start(size), self.end(size)))
        } else {
            Err(InvalidByteRangeError { byte_range: *self, bytes_len: size })
        }
    }
}

/// A byte range that does not fit the buffer it was resolved against.
#[derive(Clone, Copy, Debug, PartialEq, Eq, Structural)]
pub struct InvalidByteRangeError {
    /// The offending range.
    pub byte_range: ByteRange,
    /// The length of the buffer.
    pub bytes_len: u64,
}

/// The text of a byte range: `start..end` for a range from the start, with an
/// offset of zero and a missing end left out, and `-length..` for a suffix.
pub open spec fn spec_byte_range_text(range: ByteRange) -> Seq<char> {
    match range {
        ByteRange::FromStart(offset, length) => (if offset == 0 {
            Seq::<char>::empty()
        } else {
            spec_decimal(offset as nat)
        }) + ".."@ + (match length {
            Some(length) => spec_decimal((offset + length) as nat),
            None => Seq::<char>::empty(),
        }),
        ByteRange::Suffix(length) => "-"@ + spec_decimal(length as nat) + ".."@,
    }
}

impl ByteRange {
    /// The text of the range.
    pub fn to_string(&self) -> (text: String)
        ensures
            text@ == spec_byte_range_text(*self),
    {
        match self {
            ByteRange::FromStart(offset, length) => {
                let mut text = if *offset == 0 {
                    String::new()
                } else {
                    decimal(*offset as u128)
                };
                text.append("..");
                match length {
                    Some(length) => {
                        let end = decimal(*offset as u128 + *length as u128);
                        text.append(end.as_str());
                    },
                    None => {},
                }
                assert(text@ =~= spec_byte_range_text(*self));
                text
            },
            ByteRange::Suffix(length) => {
                let mut text = String::from_str("-");
                let digits = decimal(*length as u128);
                text.append(digits.as_str());
                text.append("..");
                text
            },
        }
    }
}

impl InvalidByteRangeError {
    /// The message of the error.
    pub fn to_string(&self) -> (text: String)
        ensures
            text@ == "invalid byte range "@ + spec_byte_range_text(self.byte_range)
                + " for bytes of length "@ + spec_decimal(self.bytes_len as nat),
    {
        let mut text = String::from_str("invalid byte range ");
        let range = self.byte_range.to_string();
        text.append(range.as_str());
        text.append(" for bytes of length ");
        let length = decimal(self.bytes_len as u128);
        text.append(length.as_str());
        text
    }
}

/// Whether every range of `ranges` lies within a buffer of `size` bytes.
pub open spec fn all_valid(ranges: Seq<ByteRange>, size: u64) -> bool {
    forall|i: int| 0 <= i < ranges.len() ==> (#[trigger] ranges[i]).spec_is_valid(size)
}

/// Whether `i` is the position of the first range of `ranges` that does not
/// fit a buffer of `size` bytes.
pub open spec fn first_invalid(ranges: Seq<ByteRange>, size: u64, i: int) -> bool {
    &&& 0 <= i < ranges.len()
    &&& !ranges[i].spec_is_valid(size)
    &&& all_valid(ranges.take(i), size)
}

/// The slices that `ranges` select from `bytes`, in the order of the ranges.
pub open spec fn spec_extract_byte_ranges(bytes: Seq<u8>, ranges: Seq<ByteRange>) -> Seq<Seq<u8>> {
    Seq::new(ranges.len(), |i: int| ranges[i].spec_extract(bytes))
}

/// The byte sequences that a list of buffers holds.
pub open spec fn buffers_view(buffers: Seq<Vec<u8>>) -> Seq<Seq<u8>> {
    Seq::new(buffers.len(), |i: int| buffers[i]@)
}

/// Checks that every range lies within a buffer of `size` bytes; the error
/// names the first range that does not.
pub fn validate_byte_ranges(ranges: &[ByteRange], size: u64) -> (checked: Result<
    (),
    InvalidByteRangeError,
>)
    ensures
        checked is Ok <==> all_valid(ranges@, size),
        checked matches Err(e) ==> exists|i: int|
            first_invalid(ranges@, size, i) && e == (InvalidByteRangeError {
                byte_range: ranges@[i],
                bytes_len: size,
            }),
{
    let mut i: usize = 0;
    while i < ranges.len()
        invariant
            i <= ranges.len(),
            all_valid(ranges@.take(i as int), size),
        decreases ranges.len() - i,
    {
        let range = ranges[i];
        if !range.is_valid(size) {
            assert(first_invalid(ranges@, size, i as int));
            return Err(InvalidByteRangeError { byte_range: range, bytes_len: size });
        }
        assert forall|j: int| 0 <= j < i + 1 implies (#[trigger] ranges@.take(i + 1)[j]).spec_is_valid(
            size,
        ) by {
            if j < i {
                assert(ranges@.take(i as int)[j] == ranges@[j]);
            }
        }
        i += 1;
    }
    assert(ranges@.take(i as int) =~= ranges@);
    Ok(())
}

/// Copies the bytes of `[start, end)` out of `bytes`.
pub fn copy_range(bytes: &[u8], start: usize, end: usize) -> (copy: Vec<u8>)
    requires
        start <= end <= bytes@.len(),
    ensures
        copy@ == bytes@.subrange(start as int, end as int),
{
    slice_to_vec(slice_subrange(bytes, start, end))
}

/// Extracts the requested ranges from `bytes`: one buffer per range, in the
/// order of the request. A range that does not fit `bytes` fails the whole
/// call with the error that names the first such range.
pub fn extract_byte_ranges(bytes: &[u8], ranges: &[ByteRange]) -> (extracted: Result<
    Vec<Vec<u8>>,
    InvalidByteRangeError,
>)
    ensures
        extracted is Ok <==> all_valid(ranges@, bytes@.len() as u64),
        extracted matches Ok(out) ==> buffers_view(out@) == spec_extract_byte_ranges(
            bytes@,
            ranges@,
        ),
        extracted matches Err(e) ==> exists|i: int|
            first_invalid(ranges@, bytes@.len() as u64, i) && e == (InvalidByteRangeError {
                byte_range: ranges@[i],
                bytes_len: bytes@.len() as u64,
            }),
{
    let size: u64 = bytes.len() as u64;
    match validate_byte_ranges(ranges, size) {
        Err(e) => Err(e),
        Ok(()) => {
            let mut out: Vec<Vec<u8>> = Vec::new();
            let mut i: usize = 0;
            while i < ranges.len()
                invariant
                    i <= ranges.len(),
                    size == bytes@.len(),
                    bytes@.len() <= usize::MAX,
                    all_valid(ranges@, size),
                    out@.len() == i,
                    forall|j: int| 0 <= j < i ==> (#[trigger] out@[j])@ == ranges@[j].spec_extract(
                        bytes@,
                    ),
                decreases ranges.len() - i,
            {
                let range = ranges[i];
                assert(ranges@[i as int].spec_is_valid(size));
                let start = range.start(size);
                let end = range.end(size);
                let piece = copy_range(bytes, start as usize, end as usize);
                out.push(piece);
                i += 1;
            }
            assert(buffers_view(out@) =~= spec_extract_byte_ranges(bytes@, ranges@));
            Ok(out)
        },
    }
}

} // verus!
