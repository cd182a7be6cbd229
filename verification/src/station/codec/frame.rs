//! Frame durations the codec accepts.

use vstd::prelude::*;

verus! {

/// Duration of one codec frame.
#[derive(Clone, Copy, Debug, PartialEq, Eq, Structural, Hash)]
pub enum FrameSize {
    Ms2Half,
    Ms5,
    Ms10,
    Ms20,
    Ms40,
    Ms60,
}

impl FrameSize {
    /// The frame's duration in microseconds.
    pub open spec fn micros(self) -> nat {
        match self {
            FrameSize::Ms2Half => 2500,
            FrameSize::Ms5 => 5000,
            FrameSize::Ms10 => 10000,
            FrameSize::Ms20 => 20000,
            FrameSize::Ms40 => 40000,
            FrameSize::Ms60 => 60000,
        }
    }

    /// Samples per channel in one frame at `rate` samples per second: the
    /// frame's duration times the rate, rounded down.
    pub open spec fn spec_sample_count(self, rate: u32) -> nat {
        (self.micros() * rate as nat) / 1_000_000
    }

    /// Samples per channel in one frame at `rate` samples per second.
    pub fn as_sample_count(&self, rate: u32) -> (count: u32)
        ensures
            count == self.spec_sample_count(rate),
            count <= rate,
    {
        let micros: u64 = match self {
            FrameSize::Ms2Half => 2500,
            FrameSize::Ms5 => 5000,
            FrameSize::Ms10 => 10000,
            FrameSize::Ms20 => 20000,
            FrameSize::Ms40 => 40000,
            FrameSize::Ms60 => 60000,
        };
        let wide: u64 = rate as u64;
        assert(micros * wide <= 60000 * 0xffff_ffff) by (nonlinear_arith)
            requires
                micros <= 60000,
                wide <= 0xffff_ffff,
        ;
        let scaled: u64 = micros * wide;
        assert(scaled / 1_000_000 <= wide) by (nonlinear_arith)
            requires
                scaled == micros * wide,
                micros <= 60000,
        ;
        (scaled / 1_000_000) as u32
    }
}

} // verus!
