//! Settings of an encoding session.

use vstd::prelude::*;

pub mod enc;
pub mod frame;
pub mod ogg;
pub mod opus;
pub mod page;

verus! {

/// Target bitrate of the codec.
#[derive(Clone, Copy, Debug, PartialEq, Eq, Structural, Hash)]
pub enum Bitrate {
    BitsPerSecond(i32),
    Max,
    Auto,
}

/// Kind of signal the codec should expect.
#[derive(Clone, Copy, Debug, PartialEq, Eq, Structural, Hash)]
pub enum Signal {
    Auto,
    Voice,
    Music,
}

/// Application profile of the codec.
#[derive(Clone, Copy, Debug, PartialEq, Eq, Structural, Hash)]
pub enum Application {
    Voip,
    Audio,
    LowDelay,
}

/// Audio bandwidth the codec may use.
#[derive(Clone, Copy, Debug, PartialEq, Eq, Structural, Hash)]
pub enum Bandwidth {
    Auto,
    Narrowband,
    Mediumband,
    Wideband,
    Superwideband,
    Fullband,
}

/// Settings of an encoding session. Durations are in nanoseconds.
#[derive(Clone, Copy, Debug, PartialEq, Eq, Structural, Hash)]
pub struct Options {
    pub frame_size: frame::FrameSize,
    pub bit_rate: Bitrate,
    pub signal: Signal,
    pub bandwidth: Bandwidth,
    pub application: Application,
    pub max_page: u64,
    pub buffer_size: u64,
    pub complexity: u8,
    pub vbr: bool,
}

} // verus!
