//! Reading a file image back: validation and sample extraction.
//!
//! The parser accepts exactly the images the writer produces — fixed
//! tags in place, a linear-PCM format block whose derived fields agree
//! with each other, and length fields that match the bytes actually
//! present — and hands back the format and the raw sample bytes in
//! their original order.

use vstd::prelude::*;
use vstd::bytes::*;
use vstd::slice::{slice_index_get, slice_subrange, slice_to_vec};
use crate::format::StreamFormat;
use crate::writer::{
    data_tag, fmt_tag, overall_size, pad_len, riff_tag, wav_bytes, wave_tag, MAX_DATA_LEN,
};

verus! {

/// Why a byte image was rejected.
#[derive(Clone, Copy, Debug, PartialEq, Eq, Structural)]
pub enum ContainerError {
    /// Shorter than the 44-byte header.
    TooShort,
    /// One of the four fixed ASCII tags is not in place.
    BadTag,
    /// The format block does not describe linear PCM this library can
    /// serialize, or its derived fields disagree with each other.
    BadFormat,
    /// A length field disagrees with the bytes actually present.
    BadSize,
}

/// The format block a header describes, read straight off the bytes.
pub open spec fn header_format(b: Seq<u8>) -> StreamFormat {
    StreamFormat {
        channel_count: spec_u16_from_le_bytes(b.subrange(22, 24)),
        sample_rate: spec_u32_from_le_bytes(b.subrange(24, 28)),
        bits_per_sample: spec_u16_from_le_bytes(b.subrange(34, 36)),
    }
}

/// Whether the four fixed tags are in place.
pub open spec fn tags_ok(b: Seq<u8>) -> bool {
    &&& b.subrange(0, 4) == riff_tag()
    &&& b.subrange(8, 12) == wave_tag()
    &&& b.subrange(12, 16) == fmt_tag()
    &&& b.subrange(36, 40) == data_tag()
}

/// Whether the format block describes linear PCM with internally
/// consistent derived fields.
pub open spec fn format_ok(b: Seq<u8>) -> bool {
    &&& spec_u32_from_le_bytes(b.subrange(16, 20)) == 16
    &&& spec_u16_from_le_bytes(b.subrange(20, 22)) == 1
    &&& header_format(b).valid()
    &&& spec_u32_from_le_bytes(b.subrange(28, 32)) == header_format(b).byte_rate_spec()
    &&& spec_u16_from_le_bytes(b.subrange(32, 34)) == header_format(b).block_align_spec()
}

/// Whether both length fields agree with the bytes present: the file
/// holds header, data and alignment exactly, and the overall-size
/// field counts everything after the first eight bytes.
pub open spec fn sizes_ok(b: Seq<u8>) -> bool {
    let dl = spec_u32_from_le_bytes(b.subrange(40, 44)) as int;
    &&& b.len() == 44 + dl + pad_len(dl)
    &&& spec_u32_from_le_bytes(b.subrange(4, 8)) == overall_size(dl)
}

/// What parsing a byte image yields: the format and the data block,
/// or the first reason for rejection, checked in file order.
pub open spec fn parse_spec(b: Seq<u8>) -> Result<(StreamFormat, Seq<u8>), ContainerError> {
    if b.len() < 44 {
        Err(ContainerError::TooShort)
    } else if !tags_ok(b) {
        Err(ContainerError::BadTag)
    } else if !format_ok(b) {
        Err(ContainerError::BadFormat)
    } else if !sizes_ok(b) {
        Err(ContainerError::BadSize)
    } else {
        Ok(
            (
                header_format(b),
                b.subrange(44, 44 + spec_u32_from_le_bytes(b.subrange(40, 44)) as int),
            ),
        )
    }
}

/// The exec parse result with the data block seen as a sequence.
pub open spec fn parse_result_view(r: Result<(StreamFormat, Vec<u8>), ContainerError>) -> Result<
    (StreamFormat, Seq<u8>),
    ContainerError,
> {
    match r {
        Ok((fmt, data)) => Ok((fmt, data@)),
        Err(e) => Err(e),
    }
}

/// Checks that the four bytes of `b` starting at `at` are `t0..t3`.
fn tag_at(b: &[u8], at: usize, t0: u8, t1: u8, t2: u8, t3: u8) -> (r: bool)
    requires
        at + 4 <= b@.len(),
    ensures
        r == (b@.subrange(at as int, at + 4) == seq![t0, t1, t2, t3]),
{
    // binding the length as usize lets the index arithmetic stay in bounds
    let n: usize = b.len();
    let r = *slice_index_get(b, at) == t0 && *slice_index_get(b, at + 1) == t1
        && *slice_index_get(b, at + 2) == t2 && *slice_index_get(b, at + 3) == t3;
    proof {
        if r {
            assert(b@.subrange(at as int, at + 4) =~= seq![t0, t1, t2, t3]);
        } else {
            assert(b@.subrange(at as int, at + 4) != seq![t0, t1, t2, t3]) by {
                if b@.subrange(at as int, at + 4) == seq![t0, t1, t2, t3] {
                    assert(b@.subrange(at as int, at + 4)[0] == t0);
                    assert(b@.subrange(at as int, at + 4)[1] == t1);
                    assert(b@.subrange(at as int, at + 4)[2] == t2);
                    assert(b@.subrange(at as int, at + 4)[3] == t3);
                }
            }
        }
    }
    r
}

/// Reads the little-endian 16-bit field at `at`.
fn read_u16(b: &[u8], at: usize) -> (r: u16)
    requires
        at + 2 <= b@.len(),
    ensures
        r == spec_u16_from_le_bytes(b@.subrange(at as int, at + 2)),
{
    let n: usize = b.len();
    u16_from_le_bytes(slice_subrange(b, at, at + 2))
}

/// Reads the little-endian 32-bit field at `at`.
fn read_u32(b: &[u8], at: usize) -> (r: u32)
    requires
        at + 4 <= b@.len(),
    ensures
        r == spec_u32_from_le_bytes(b@.subrange(at as int, at + 4)),
{
    let n: usize = b.len();
    u32_from_le_bytes(slice_subrange(b, at, at + 4))
}

/// Validates a byte image and extracts the format it declares and its
/// data block, bytes in their original order; rejected images get the
/// first applicable reason, checked in file order.
pub fn parse_wav(bytes: &Vec<u8>) -> (r: Result<(StreamFormat, Vec<u8>), ContainerError>)
    ensures
        parse_result_view(r) == parse_spec(bytes@),
{
    let b: &[u8] = bytes.as_slice();
    if b.len() < 44 {
        return Err(ContainerError::TooShort);
    }
    let tags = tag_at(b, 0, 0x52, 0x49, 0x46, 0x46) && tag_at(b, 8, 0x57, 0x41, 0x56, 0x45)
        && tag_at(b, 12, 0x66, 0x6d, 0x74, 0x20) && tag_at(b, 36, 0x64, 0x61, 0x74, 0x61);
    if !tags {
        return Err(ContainerError::BadTag);
    }
    let fmt = StreamFormat {
        channel_count: read_u16(b, 22),
        sample_rate: read_u32(b, 24),
        bits_per_sample: read_u16(b, 34),
    };
    assert(fmt == header_format(bytes@));
    if !(read_u32(b, 16) == 16 && read_u16(b, 20) == 1 && fmt.is_valid()) {
        return Err(ContainerError::BadFormat);
    }
    if !(read_u32(b, 28) == fmt.byte_rate() && read_u16(b, 32) == fmt.block_align()) {
        return Err(ContainerError::BadFormat);
    }
    let dl = read_u32(b, 40);
    let pad: u64 = (dl % 2) as u64;
    if (b.len() as u64) != 44 + (dl as u64) + pad {
        return Err(ContainerError::BadSize);
    }
    if (read_u32(b, 4) as u64) != 36 + (dl as u64) + pad {
        return Err(ContainerError::BadSize);
    }
    let data = slice_to_vec(slice_subrange(b, 44, 44 + (dl as usize)));
    Ok((fmt, data))
}

/// Round trip: parsing a written file image succeeds and reproduces
/// the format and the captured byte sequence exactly, byte for byte.
pub proof fn lemma_round_trip(fmt: StreamFormat, data: Seq<u8>)
    requires
        fmt.valid(),
        data.len() <= MAX_DATA_LEN,
    ensures
        parse_spec(wav_bytes(fmt, data)) == Ok::<_, ContainerError>((fmt, data)),
{
    lemma_auto_spec_u16_to_from_le_bytes();
    lemma_auto_spec_u32_to_from_le_bytes();
    crate::writer::lemma_header_layout(fmt, data);
    let w = wav_bytes(fmt, data);
    assert(header_format(w) == fmt);
    assert(tags_ok(w));
    assert(format_ok(w));
    assert(sizes_ok(w));
    assert(parse_spec(w)->Ok_0.1 == data);
}

} // verus!
