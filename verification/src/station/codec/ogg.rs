//! The bookkeeping of an Ogg logical stream: what each packet is stamped
//! with before it is framed into pages.

use vstd::prelude::*;

verus! {

/// The sum of `a` and `b` modulo 2^64.
pub open spec fn wrapping_sum(a: u64, b: u64) -> u64 {
    if a + b > u64::MAX {
        (a + b - 0x1_0000_0000_0000_0000) as u64
    } else {
        (a + b) as u64
    }
}

/// The sum of `a` and `b` modulo 2^64.
pub fn wrapping_add(a: u64, b: u64) -> (sum: u64)
    ensures
        sum == wrapping_sum(a, b),
{
    if a > u64::MAX - b {
        a - (u64::MAX - b) - 1
    } else {
        a + b
    }
}

/// The serial number of the one logical stream of a broadcast.
pub const STREAM_ID: i32 = 888765668;

/// What a packet is stamped with: whether it begins or ends the stream, the
/// granule position after it, and its number in the stream.
#[derive(Clone, Copy, Debug, PartialEq, Eq, Structural, Hash)]
pub struct PacketHeader {
    pub b_o_s: bool,
    pub e_o_s: bool,
    pub granulepos: u64,
    pub packetno: u64,
}

/// What the bookkeeping of a stream is, as a mathematical value.
pub struct OggStreamView {
    /// Whether a packet has been put yet.
    pub started: bool,
    /// The number of packets put so far, modulo 2^64.
    pub counter: u64,
    /// The number of samples put so far, modulo 2^64.
    pub samples: u64,
}

impl OggStreamView {
    /// The stamp of the next packet, which carries `samples` samples: it
    /// begins the stream only if it is the first ever, never ends it, and its
    /// granule position counts its own samples in.
    pub open spec fn stamp(self, samples: u64) -> PacketHeader {
        PacketHeader {
            b_o_s: !self.started,
            e_o_s: false,
            granulepos: wrapping_sum(self.samples, samples),
            packetno: self.counter,
        }
    }

    /// The bookkeeping after a packet of `samples` samples has been put.
    pub open spec fn put(self, samples: u64) -> OggStreamView {
        OggStreamView {
            started: true,
            counter: wrapping_sum(self.counter, 1),
            samples: wrapping_sum(self.samples, samples),
        }
    }
}

/// The bookkeeping of one logical stream.
pub struct OggStream {
    started: bool,
    counter: u64,
    samples: u64,
}

impl View for OggStream {
    type V = OggStreamView;

    closed spec fn view(&self) -> OggStreamView {
        OggStreamView { started: self.started, counter: self.counter, samples: self.samples }
    }
}

impl OggStream {
    /// A stream into which no packet has been put.
    pub fn new() -> (stream: OggStream)
        ensures
            stream@ == (OggStreamView { started: false, counter: 0, samples: 0 }),
    {
        OggStream { started: false, counter: 0, samples: 0 }
    }

    /// Accounts for one more packet, which carries `samples` samples, and
    /// gives its stamp.
    pub fn put(&mut self, samples: u64) -> (header: PacketHeader)
        ensures
            header == old(self)@.stamp(samples),
            final(self)@ == old(self)@.put(samples),
    {
        self.samples = wrapping_add(self.samples, samples);
        let header = PacketHeader {
            b_o_s: !self.started,
            e_o_s: false,
            granulepos: self.samples,
            packetno: self.counter,
        };
        self.started = true;
        self.counter = wrapping_add(self.counter, 1);
        header
    }
}

/// Only the first packet of a stream begins it, and over two packets in a
/// row the packet number goes up by one and the granule position by the
/// samples of the second, both modulo 2^64.
pub proof fn law_packets_are_stamped_in_sequence(stream: OggStreamView, first: u64, second: u64)
    ensures
        !stream.put(first).stamp(second).b_o_s,
        stream.put(first).stamp(second).packetno == wrapping_sum(stream.stamp(first).packetno, 1),
        stream.put(first).stamp(second).granulepos == wrapping_sum(
            stream.stamp(first).granulepos,
            second,
        ),
{
}

} // verus!
