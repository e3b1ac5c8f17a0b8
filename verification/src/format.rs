//! The immutable per-session description of the sample encoding.

use vstd::prelude::*;

verus! {

/// Fixed description of the sample encoding for one capture session:
/// interleaved channel count, sample rate in Hz, and bits per sample.
/// Established once at stream open; the container header is derived
/// entirely from it.
#[derive(Clone, Copy, Debug, PartialEq, Eq, Structural)]
pub struct StreamFormat {
    pub channel_count: u16,
    pub sample_rate: u32,
    pub bits_per_sample: u16,
}

impl StreamFormat {
    /// A format this library can serialize: linear PCM with whole-byte
    /// sample widths, at least one channel, a nonzero rate, and derived
    /// header fields that fit their on-disk widths.
    pub open spec fn valid(self) -> bool {
        &&& self.channel_count >= 1
        &&& self.sample_rate >= 1
        &&& (self.bits_per_sample == 8 || self.bits_per_sample == 16
            || self.bits_per_sample == 32)
        &&& self.block_align_spec() <= u16::MAX
        &&& self.byte_rate_spec() <= u32::MAX
    }

    /// Bytes occupied by a single sample of a single channel.
    pub open spec fn bytes_per_sample(self) -> int {
        self.bits_per_sample as int / 8
    }

    /// Size in bytes of one frame: one sample for every channel.
    pub open spec fn block_align_spec(self) -> int {
        self.channel_count * self.bytes_per_sample()
    }

    /// Bytes of sample data produced per second of audio.
    pub open spec fn byte_rate_spec(self) -> int {
        self.sample_rate * self.channel_count * self.bytes_per_sample()
    }

    /// Runtime check that mirrors `valid` exactly, for callers arriving
    /// from unverified configuration code.
    pub fn is_valid(&self) -> (r: bool)
        ensures
            r == self.valid(),
    {
        if !(self.channel_count >= 1 && self.sample_rate >= 1
            && (self.bits_per_sample == 8 || self.bits_per_sample == 16
                || self.bits_per_sample == 32)) {
            return false;
        }
        let c: u64 = self.channel_count as u64;
        let d: u64 = (self.bits_per_sample / 8) as u64;
        let sr: u64 = self.sample_rate as u64;
        assert(c * d <= 0xffff * 4) by (nonlinear_arith)
            requires
                c <= 0xffff,
                d <= 4,
        ;
        let ba: u64 = c * d;
        assert(sr * c * d <= 0xffff_ffff * 0xffff * 4) by (nonlinear_arith)
            requires
                sr <= 0xffff_ffff,
                c <= 0xffff,
                d <= 4,
        ;
        assert(sr * (c * d) == sr * c * d) by (nonlinear_arith);
        let br: u64 = sr * ba;
        ba <= u16::MAX as u64 && br <= u32::MAX as u64
    }

    /// The header's block-align field: bytes per frame.
    pub fn block_align(&self) -> (r: u16)
        requires
            self.valid(),
        ensures
            r == self.block_align_spec(),
    {
        self.channel_count * (self.bits_per_sample / 8)
    }

    /// The header's byte-rate field: `sample_rate * channel_count *
    /// bits_per_sample / 8`.
    pub fn byte_rate(&self) -> (r: u32)
        requires
            self.valid(),
        ensures
            r == self.byte_rate_spec(),
    {
        let c: u64 = self.channel_count as u64;
        let d: u64 = (self.bits_per_sample / 8) as u64;
        let sr: u64 = self.sample_rate as u64;
        assert(sr * c <= 0xffff_ffff * 0xffff && sr * c * d <= 0xffff_ffff * 0xffff * 4)
            by (nonlinear_arith)
            requires
                sr <= 0xffff_ffff,
                c <= 0xffff,
                d <= 4,
        ;
        let wide: u64 = sr * c * d;
        wide as u32
    }
}

} // verus!
