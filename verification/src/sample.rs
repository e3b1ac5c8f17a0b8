//! Sample blocks and their little-endian byte serialization.
//!
//! A capture callback delivers one `SampleBlock` per invocation. Each
//! supported encoding is a variant owning a strongly-typed sequence, and
//! serialization to raw bytes is an explicit, verified function per
//! variant; no raw reinterpretation of memory is involved.

use vstd::prelude::*;
use vstd::bytes::*;

verus! {

/// The two's-complement bit pattern of a signed 8-bit sample.
pub open spec fn u8_repr(v: i8) -> u8 {
    if v >= 0 {
        v as u8
    } else {
        (v + 0x100) as u8
    }
}

/// The two's-complement bit pattern of a signed 16-bit sample.
pub open spec fn u16_repr(v: i16) -> u16 {
    if v >= 0 {
        v as u16
    } else {
        (v + 0x10000) as u16
    }
}

/// The two's-complement bit pattern of a signed 32-bit sample.
pub open spec fn u32_repr(v: i32) -> u32 {
    if v >= 0 {
        v as u32
    } else {
        (v + 0x1_0000_0000) as u32
    }
}

/// Little-endian encoding of one 16-bit sample.
pub open spec fn i16_le(v: i16) -> Seq<u8> {
    spec_u16_to_le_bytes(u16_repr(v))
}

/// Little-endian encoding of one 32-bit sample.
pub open spec fn i32_le(v: i32) -> Seq<u8> {
    spec_u32_to_le_bytes(u32_repr(v))
}

/// Concatenated encodings of a sequence of 8-bit samples, in order.
pub open spec fn i8s_bytes(s: Seq<i8>) -> Seq<u8>
    decreases s.len(),
{
    if s.len() == 0 {
        Seq::empty()
    } else {
        i8s_bytes(s.drop_last()).push(u8_repr(s.last()))
    }
}

/// Concatenated encodings of a sequence of 16-bit samples, in order.
pub open spec fn i16s_bytes(s: Seq<i16>) -> Seq<u8>
    decreases s.len(),
{
    if s.len() == 0 {
        Seq::empty()
    } else {
        i16s_bytes(s.drop_last()) + i16_le(s.last())
    }
}

/// Concatenated encodings of a sequence of 32-bit samples, in order.
pub open spec fn i32s_bytes(s: Seq<i32>) -> Seq<u8>
    decreases s.len(),
{
    if s.len() == 0 {
        Seq::empty()
    } else {
        i32s_bytes(s.drop_last()) + i32_le(s.last())
    }
}

/// One callback invocation's worth of captured samples, atomic and
/// ordered. Exactly one encoding is in use per session, per the
/// session's `StreamFormat`.
pub enum SampleBlock {
    Int8(Vec<i8>),
    Int16(Vec<i16>),
    Int32(Vec<i32>),
}

impl SampleBlock {
    /// The raw little-endian bytes this block contributes to the file,
    /// samples in delivery order.
    pub open spec fn bytes_spec(self) -> Seq<u8> {
        match self {
            SampleBlock::Int8(v) => i8s_bytes(v@),
            SampleBlock::Int16(v) => i16s_bytes(v@),
            SampleBlock::Int32(v) => i32s_bytes(v@),
        }
    }

    /// Number of samples the block carries.
    pub open spec fn sample_count(self) -> nat {
        match self {
            SampleBlock::Int8(v) => v@.len(),
            SampleBlock::Int16(v) => v@.len(),
            SampleBlock::Int32(v) => v@.len(),
        }
    }

    /// Serializes the block to raw bytes.
    pub fn to_bytes(&self) -> (r: Vec<u8>)
        ensures
            r@ == self.bytes_spec(),
    {
        let mut out: Vec<u8> = Vec::new();
        match self {
            SampleBlock::Int8(v) => append_i8s(&mut out, v),
            SampleBlock::Int16(v) => append_i16s(&mut out, v),
            SampleBlock::Int32(v) => append_i32s(&mut out, v),
        }
        out
    }
}

/// Bit pattern of an 8-bit sample, computed without narrowing casts of
/// out-of-range values.
fn u8_repr_of(v: i8) -> (r: u8)
    ensures
        r == u8_repr(v),
{
    if v >= 0 {
        v as u8
    } else {
        ((v as i16) + 0x100) as u8
    }
}

/// Bit pattern of a 16-bit sample.
fn u16_repr_of(v: i16) -> (r: u16)
    ensures
        r == u16_repr(v),
{
    if v >= 0 {
        v as u16
    } else {
        ((v as i32) + 0x10000) as u16
    }
}

/// Bit pattern of a 32-bit sample.
fn u32_repr_of(v: i32) -> (r: u32)
    ensures
        r == u32_repr(v),
{
    if v >= 0 {
        v as u32
    } else {
        ((v as i64) + 0x1_0000_0000) as u32
    }
}

/// Appends the encodings of all samples in `v`, in order.
fn append_i8s(out: &mut Vec<u8>, v: &Vec<i8>)
    ensures
        final(out)@ == old(out)@ + i8s_bytes(v@),
{
    let ghost base = out@;
    let mut i: usize = 0;
    while i < v.len()
        invariant
            i <= v@.len(),
            out@ == base + i8s_bytes(v@.take(i as int)),
        decreases v@.len() - i,
    {
        out.push(u8_repr_of(v[i]));
        proof {
            assert(v@.take(i + 1).drop_last() =~= v@.take(i as int));
            assert(v@.take(i + 1).last() == v@[i as int]);
        }
        i += 1;
    }
    proof {
        assert(v@.take(v@.len() as int) =~= v@);
        assert(out@ =~= old(out)@ + i8s_bytes(v@));
    }
}

/// Appends the encodings of all samples in `v`, in order.
fn append_i16s(out: &mut Vec<u8>, v: &Vec<i16>)
    ensures
        final(out)@ == old(out)@ + i16s_bytes(v@),
{
    let ghost base = out@;
    let mut i: usize = 0;
    while i < v.len()
        invariant
            i <= v@.len(),
            out@ == base + i16s_bytes(v@.take(i as int)),
        decreases v@.len() - i,
    {
        let mut le = u16_to_le_bytes(u16_repr_of(v[i]));
        out.append(&mut le);
        proof {
            assert(v@.take(i + 1).drop_last() =~= v@.take(i as int));
            assert(v@.take(i + 1).last() == v@[i as int]);
            assert(out@ =~= base + i16s_bytes(v@.take(i + 1)));
        }
        i += 1;
    }
    proof {
        assert(v@.take(v@.len() as int) =~= v@);
        assert(out@ =~= old(out)@ + i16s_bytes(v@));
    }
}

/// Appends the encodings of all samples in `v`, in order.
fn append_i32s(out: &mut Vec<u8>, v: &Vec<i32>)
    ensures
        final(out)@ == old(out)@ + i32s_bytes(v@),
{
    let ghost base = out@;
    let mut i: usize = 0;
    while i < v.len()
        invariant
            i <= v@.len(),
            out@ == base + i32s_bytes(v@.take(i as int)),
        decreases v@.len() - i,
    {
        let mut le = u32_to_le_bytes(u32_repr_of(v[i]));
        out.append(&mut le);
        proof {
            assert(v@.take(i + 1).drop_last() =~= v@.take(i as int));
            assert(v@.take(i + 1).last() == v@[i as int]);
            assert(out@ =~= base + i32s_bytes(v@.take(i + 1)));
        }
        i += 1;
    }
    proof {
        assert(v@.take(v@.len() as int) =~= v@);
        assert(out@ =~= old(out)@ + i32s_bytes(v@));
    }
}

/// The byte count of a serialized 8-bit sample sequence is its length.
pub proof fn lemma_i8s_bytes_len(s: Seq<i8>)
    ensures
        i8s_bytes(s).len() == s.len(),
    decreases s.len(),
{
    if s.len() > 0 {
        lemma_i8s_bytes_len(s.drop_last());
    }
}

/// A serialized 16-bit sample sequence occupies two bytes per sample.
pub proof fn lemma_i16s_bytes_len(s: Seq<i16>)
    ensures
        i16s_bytes(s).len() == 2 * s.len(),
    decreases s.len(),
{
    lemma_auto_spec_u16_to_from_le_bytes();
    if s.len() > 0 {
        lemma_i16s_bytes_len(s.drop_last());
    }
}

/// A serialized 32-bit sample sequence occupies four bytes per sample.
pub proof fn lemma_i32s_bytes_len(s: Seq<i32>)
    ensures
        i32s_bytes(s).len() == 4 * s.len(),
    decreases s.len(),
{
    lemma_auto_spec_u32_to_from_le_bytes();
    if s.len() > 0 {
        lemma_i32s_bytes_len(s.drop_last());
    }
}

} // verus!
