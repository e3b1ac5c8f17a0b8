//! The container writer: serializes captured sample bytes into a
//! RIFF/WAVE file image.
//!
//! The file is a fixed 44-byte header followed by the raw data block
//! and, when the data block has odd length, one alignment pad byte.
//! Both length fields (the overall size at offset 4 and the data size
//! at offset 40) are proved to equal the byte counts that follow them;
//! the data-size field excludes the pad byte while the overall-size
//! field counts it.
//!
//! The image is assembled in memory, where every length is known before
//! the header is laid down, so no placeholder needs patching; writing
//! the finished image to its destination in one pass is the caller's
//! (unverified) side of the boundary.

use vstd::prelude::*;
use vstd::bytes::*;
use crate::buffer::CaptureBuffer;
use crate::format::StreamFormat;

verus! {

/// Chunk id opening the file: ASCII "RIFF".
pub open spec fn riff_tag() -> Seq<u8> {
    seq![0x52u8, 0x49u8, 0x46u8, 0x46u8]
}

/// Container form tag: ASCII "WAVE".
pub open spec fn wave_tag() -> Seq<u8> {
    seq![0x57u8, 0x41u8, 0x56u8, 0x45u8]
}

/// Format subchunk id: ASCII "fmt ".
pub open spec fn fmt_tag() -> Seq<u8> {
    seq![0x66u8, 0x6du8, 0x74u8, 0x20u8]
}

/// Data subchunk id: ASCII "data".
pub open spec fn data_tag() -> Seq<u8> {
    seq![0x64u8, 0x61u8, 0x74u8, 0x61u8]
}

/// Number of alignment bytes after a data block of `data_len` bytes:
/// one for odd lengths, none for even.
pub open spec fn pad_len(data_len: int) -> int {
    if data_len % 2 == 1 {
        1
    } else {
        0
    }
}

/// The alignment bytes themselves: a single zero byte, or nothing.
pub open spec fn pad_bytes(data_len: int) -> Seq<u8> {
    if data_len % 2 == 1 {
        seq![0u8]
    } else {
        Seq::empty()
    }
}

/// Value of the overall-size field: every byte of the file after the
/// first eight, pad byte included.
pub open spec fn overall_size(data_len: int) -> int {
    36 + data_len + pad_len(data_len)
}

/// Largest data block whose overall-size field still fits in 32 bits.
pub const MAX_DATA_LEN: u32 = u32::MAX - 37;

/// The 44 header bytes preceding the data block, little-endian
/// throughout, derived from the format and the data byte count alone.
pub open spec fn header_bytes(fmt: StreamFormat, data_len: int) -> Seq<u8> {
    riff_tag() + spec_u32_to_le_bytes(overall_size(data_len) as u32) + wave_tag() + fmt_tag()
        + spec_u32_to_le_bytes(16u32) + spec_u16_to_le_bytes(1u16) + spec_u16_to_le_bytes(
        fmt.channel_count,
    ) + spec_u32_to_le_bytes(fmt.sample_rate) + spec_u32_to_le_bytes(
        fmt.byte_rate_spec() as u32,
    ) + spec_u16_to_le_bytes(fmt.block_align_spec() as u16) + spec_u16_to_le_bytes(
        fmt.bits_per_sample,
    ) + data_tag() + spec_u32_to_le_bytes(data_len as u32)
}

/// The complete file image: header, data, alignment.
pub open spec fn wav_bytes(fmt: StreamFormat, data: Seq<u8>) -> Seq<u8> {
    header_bytes(fmt, data.len() as int) + data + pad_bytes(data.len() as int)
}

/// Appends the two little-endian bytes of `v`.
fn push_le16(out: &mut Vec<u8>, v: u16)
    ensures
        final(out)@ == old(out)@ + spec_u16_to_le_bytes(v),
{
    let mut b = u16_to_le_bytes(v);
    out.append(&mut b);
}

/// Appends the four little-endian bytes of `v`.
fn push_le32(out: &mut Vec<u8>, v: u32)
    ensures
        final(out)@ == old(out)@ + spec_u32_to_le_bytes(v),
{
    let mut b = u32_to_le_bytes(v);
    out.append(&mut b);
}

/// Serializes one session's captured bytes into the complete file
/// image for the session's format: 44 header bytes whose fields all
/// agree with `fmt` and with the data length, then every sample byte
/// in capture order, then the single pad byte exactly when the data
/// length is odd.
pub fn encode_wav(fmt: &StreamFormat, samples: &Vec<u8>) -> (out: Vec<u8>)
    requires
        fmt.valid(),
        samples@.len() <= MAX_DATA_LEN,
    ensures
        out@ == wav_bytes(*fmt, samples@),
        out@.len() == 44 + samples@.len() + pad_len(samples@.len() as int),
{
    proof {
        lemma_auto_spec_u16_to_from_le_bytes();
        lemma_auto_spec_u32_to_from_le_bytes();
    }
    let data_len: u32 = samples.len() as u32;
    let pad: u32 = data_len % 2;
    let overall: u32 = 36 + data_len + pad;
    let mut out: Vec<u8> = Vec::new();
    out.push(0x52);
    out.push(0x49);
    out.push(0x46);
    out.push(0x46);
    push_le32(&mut out, overall);
    out.push(0x57);
    out.push(0x41);
    out.push(0x56);
    out.push(0x45);
    out.push(0x66);
    out.push(0x6d);
    out.push(0x74);
    out.push(0x20);
    push_le32(&mut out, 16);
    push_le16(&mut out, 1);
    push_le16(&mut out, fmt.channel_count);
    push_le32(&mut out, fmt.sample_rate);
    push_le32(&mut out, fmt.byte_rate());
    push_le16(&mut out, fmt.block_align());
    push_le16(&mut out, fmt.bits_per_sample);
    out.push(0x64);
    out.push(0x61);
    out.push(0x74);
    out.push(0x61);
    push_le32(&mut out, data_len);
    proof {
        assert(out@ =~= header_bytes(*fmt, samples@.len() as int));
    }
    let ghost hdr = out@;
    let mut i: usize = 0;
    while i < samples.len()
        invariant
            i <= samples@.len(),
            out@ == hdr + samples@.take(i as int),
        decreases samples@.len() - i,
    {
        out.push(samples[i]);
        proof {
            assert(hdr + samples@.take(i + 1) =~= (hdr + samples@.take(i as int)).push(
                samples@[i as int],
            ));
        }
        i += 1;
    }
    proof {
        assert(samples@.take(samples@.len() as int) =~= samples@);
    }
    if pad == 1 {
        out.push(0);
    }
    proof {
        assert(out@ =~= wav_bytes(*fmt, samples@));
    }
    out
}

/// Drains a stopped session's buffer and serializes it, checking the
/// writer's obligations at run time first: succeeds exactly when the
/// format is one this library can serialize and the captured bytes fit
/// the container's 32-bit size fields, and then yields precisely the
/// file image of the drained bytes. Consumes the buffer, so a session
/// is finalized at most once.
pub fn finalize_image(fmt: &StreamFormat, buffer: CaptureBuffer) -> (r: Option<Vec<u8>>)
    ensures
        r is Some <==> fmt.valid() && buffer@.len() <= MAX_DATA_LEN,
        r is Some ==> r->0@ == wav_bytes(*fmt, buffer@),
{
    let data = buffer.drain();
    if fmt.is_valid() && (data.len() as u64) <= (MAX_DATA_LEN as u64) {
        Some(encode_wav(fmt, &data))
    } else {
        None
    }
}

/// Where each field of the file image sits and what it holds: the
/// four fixed tags, every format field, both length fields, the data
/// block itself, and the pad byte exactly when the data length is odd.
pub proof fn lemma_header_layout(fmt: StreamFormat, data: Seq<u8>)
    requires
        fmt.valid(),
        data.len() <= MAX_DATA_LEN,
    ensures
        wav_bytes(fmt, data).len() == 44 + data.len() + pad_len(data.len() as int),
        wav_bytes(fmt, data).subrange(0, 4) == riff_tag(),
        wav_bytes(fmt, data).subrange(4, 8) == spec_u32_to_le_bytes(
            overall_size(data.len() as int) as u32,
        ),
        wav_bytes(fmt, data).subrange(8, 12) == wave_tag(),
        wav_bytes(fmt, data).subrange(12, 16) == fmt_tag(),
        wav_bytes(fmt, data).subrange(16, 20) == spec_u32_to_le_bytes(16u32),
        wav_bytes(fmt, data).subrange(20, 22) == spec_u16_to_le_bytes(1u16),
        wav_bytes(fmt, data).subrange(22, 24) == spec_u16_to_le_bytes(fmt.channel_count),
        wav_bytes(fmt, data).subrange(24, 28) == spec_u32_to_le_bytes(fmt.sample_rate),
        wav_bytes(fmt, data).subrange(28, 32) == spec_u32_to_le_bytes(
            fmt.byte_rate_spec() as u32,
        ),
        wav_bytes(fmt, data).subrange(32, 34) == spec_u16_to_le_bytes(
            fmt.block_align_spec() as u16,
        ),
        wav_bytes(fmt, data).subrange(34, 36) == spec_u16_to_le_bytes(fmt.bits_per_sample),
        wav_bytes(fmt, data).subrange(36, 40) == data_tag(),
        wav_bytes(fmt, data).subrange(40, 44) == spec_u32_to_le_bytes(data.len() as u32),
        wav_bytes(fmt, data).subrange(44, 44 + data.len() as int) == data,
        data.len() % 2 == 1 ==> wav_bytes(fmt, data).last() == 0u8,
{
    lemma_auto_spec_u16_to_from_le_bytes();
    lemma_auto_spec_u32_to_from_le_bytes();
    let w = wav_bytes(fmt, data);
    let dl = data.len() as int;
    assert(w.subrange(0, 4) =~= riff_tag());
    assert(w.subrange(4, 8) =~= spec_u32_to_le_bytes(overall_size(dl) as u32));
    assert(w.subrange(8, 12) =~= wave_tag());
    assert(w.subrange(12, 16) =~= fmt_tag());
    assert(w.subrange(16, 20) =~= spec_u32_to_le_bytes(16u32));
    assert(w.subrange(20, 22) =~= spec_u16_to_le_bytes(1u16));
    assert(w.subrange(22, 24) =~= spec_u16_to_le_bytes(fmt.channel_count));
    assert(w.subrange(24, 28) =~= spec_u32_to_le_bytes(fmt.sample_rate));
    assert(w.subrange(28, 32) =~= spec_u32_to_le_bytes(fmt.byte_rate_spec() as u32));
    assert(w.subrange(32, 34) =~= spec_u16_to_le_bytes(fmt.block_align_spec() as u16));
    assert(w.subrange(34, 36) =~= spec_u16_to_le_bytes(fmt.bits_per_sample));
    assert(w.subrange(36, 40) =~= data_tag());
    assert(w.subrange(40, 44) =~= spec_u32_to_le_bytes(data.len() as u32));
    assert(w.subrange(44, 44 + dl) =~= data);
}

/// The byte-rate field of every written header equals
/// `sample_rate * channel_count * bits_per_sample / 8` exactly.
pub proof fn lemma_byte_rate_field(fmt: StreamFormat, data: Seq<u8>)
    requires
        fmt.valid(),
        data.len() <= MAX_DATA_LEN,
    ensures
        spec_u32_from_le_bytes(wav_bytes(fmt, data).subrange(28, 32)) == fmt.sample_rate
            * fmt.channel_count * (fmt.bits_per_sample as int / 8),
{
    lemma_header_layout(fmt, data);
    lemma_auto_spec_u32_to_from_le_bytes();
}

/// A data block of odd length is followed by exactly one pad byte: the
/// file is one byte longer than header plus data, the data-size field
/// excludes the pad byte, and the overall-size field (all bytes after
/// the first eight) includes it.
pub proof fn lemma_odd_length_padding(fmt: StreamFormat, data: Seq<u8>)
    requires
        fmt.valid(),
        data.len() <= MAX_DATA_LEN,
        data.len() % 2 == 1,
    ensures
        wav_bytes(fmt, data).len() == 45 + data.len(),
        wav_bytes(fmt, data).last() == 0u8,
        spec_u32_from_le_bytes(wav_bytes(fmt, data).subrange(40, 44)) == data.len(),
        spec_u32_from_le_bytes(wav_bytes(fmt, data).subrange(4, 8)) == wav_bytes(
            fmt,
            data,
        ).len() - 8,
{
    lemma_header_layout(fmt, data);
    lemma_auto_spec_u32_to_from_le_bytes();
}

/// A data block of even length is followed by no pad byte: the file is
/// exactly header plus data, and the overall-size field equals the
/// data-size field plus 36.
pub proof fn lemma_even_length_no_padding(fmt: StreamFormat, data: Seq<u8>)
    requires
        fmt.valid(),
        data.len() <= MAX_DATA_LEN,
        data.len() % 2 == 0,
    ensures
        wav_bytes(fmt, data).len() == 44 + data.len(),
        spec_u32_from_le_bytes(wav_bytes(fmt, data).subrange(40, 44)) == data.len(),
        spec_u32_from_le_bytes(wav_bytes(fmt, data).subrange(4, 8)) == spec_u32_from_le_bytes(
            wav_bytes(fmt, data).subrange(40, 44),
        ) + 36,
{
    lemma_header_layout(fmt, data);
    lemma_auto_spec_u32_to_from_le_bytes();
}

/// The encoding is a function of the format and the sample bytes
/// alone: finalizing the same buffer twice, to any two destinations,
/// produces byte-identical file images.
pub proof fn lemma_encode_deterministic(
    fmt1: StreamFormat,
    fmt2: StreamFormat,
    d1: Seq<u8>,
    d2: Seq<u8>,
)
    requires
        fmt1 == fmt2,
        d1 == d2,
    ensures
        wav_bytes(fmt1, d1) == wav_bytes(fmt2, d2),
{
}

} // verus!
