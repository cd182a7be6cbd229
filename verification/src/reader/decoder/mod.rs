//! The bookkeeping of a decoding source: which samples are handed out, when
//! a further packet has to be decoded, and when the stream is over.

use crate::audio::{AudioFormat, Sample};
use crate::reader::decoder::conv::Buffer;
use vstd::prelude::*;

pub mod conv;

verus! {

/// What a decoder's bookkeeping is, as a mathematical value.
pub struct AudioDecoderView {
    /// The format of the samples handed out.
    pub format: AudioFormat,
    /// The track whose packets are decoded.
    pub track: u32,
    /// The converted samples not handed out yet.
    pub buffered: Seq<Sample>,
    /// Whether the end of the stream has been reached.
    pub eof_reached: bool,
}

/// What the caller has to do next for a pull.
#[derive(Clone, Copy, Debug, PartialEq, Eq, Structural, Hash)]
pub enum Demand {
    /// Hand on what was collected: it is all that was asked for, or the
    /// stream is over.
    Deliver,
    /// Decode the next packet of the track and feed its samples in.
    Fetch,
}

impl AudioDecoderView {
    /// How many of the buffered samples a pull takes that has collected
    /// `collected` of the `count` samples it was asked for.
    pub open spec fn taken(self, collected: nat, count: nat) -> nat {
        if self.eof_reached || collected >= count {
            0
        } else if self.buffered.len() <= count - collected {
            self.buffered.len()
        } else {
            (count - collected) as nat
        }
    }

    /// What follows once the buffered samples were taken: the pull delivers
    /// if the stream is over or it has all it was asked for, and else needs
    /// a further packet.
    pub open spec fn demand(self, collected: nat, count: nat) -> Demand {
        if self.eof_reached || collected + self.taken(collected, count) >= count {
            Demand::Deliver
        } else {
            Demand::Fetch
        }
    }
}

/// The bookkeeping of a source that decodes one track of a stream, packet
/// by packet, and hands the converted samples out as they are asked for.
pub struct AudioDecoder {
    format: AudioFormat,
    track: u32,
    buffer: Option<Buffer>,
    eof_reached: bool,
}

impl View for AudioDecoder {
    type V = AudioDecoderView;

    closed spec fn view(&self) -> AudioDecoderView {
        AudioDecoderView {
            format: self.format,
            track: self.track,
            buffered: match self.buffer {
                Some(buffer) => buffer@,
                None => Seq::<Sample>::empty(),
            },
            eof_reached: self.eof_reached,
        }
    }
}

impl AudioDecoder {
    /// The bookkeeping at the start of a stream: nothing is buffered.
    pub fn new(format: AudioFormat, track: u32) -> (decoder: AudioDecoder)
        ensures
            decoder@ == (AudioDecoderView {
                format,
                track,
                buffered: Seq::<Sample>::empty(),
                eof_reached: false,
            }),
    {
        AudioDecoder { format, track, buffer: None, eof_reached: false }
    }

    /// The format of the samples handed out.
    pub fn format(&self) -> (format: AudioFormat)
        ensures
            format == self@.format,
    {
        self.format
    }

    /// Whether a packet of the given track is one to decode.
    pub fn accepts(&self, track_id: u32) -> (accepted: bool)
        ensures
            accepted == (track_id == self@.track),
    {
        track_id == self.track
    }

    /// Moves buffered samples into `collected`, as many as the pull still
    /// lacks of the `count` it was asked for, and says what follows.
    pub fn drain(&mut self, collected: &mut Vec<Sample>, count: usize) -> (demand: Demand)
        ensures
            final(collected)@ == old(collected)@ + old(self)@.buffered.take(
                old(self)@.taken(old(collected)@.len(), count as nat) as int,
            ),
            final(self)@ == (AudioDecoderView {
                buffered: old(self)@.buffered.skip(
                    old(self)@.taken(old(collected)@.len(), count as nat) as int,
                ),
                ..old(self)@
            }),
            demand == old(self)@.demand(old(collected)@.len(), count as nat),
    {
        let ghost before = self@.buffered;
        if self.eof_reached || collected.len() >= count {
            proof {
                assert(before.take(0) =~= Seq::<Sample>::empty());
                assert(before.skip(0) =~= before);
                assert(collected@ + before.take(0) =~= collected@);
            }
            return Demand::Deliver;
        }
        let room: usize = count - collected.len();
        match self.buffer.take() {
            Some(buffer) => {
                match buffer.take(collected, room) {
                    Ok(rest) => {
                        self.buffer = Some(rest);
                        Demand::Deliver
                    },
                    Err(given) => {
                        proof {
                            assert(before.take(before.len() as int) =~= before);
                            assert(before.skip(before.len() as int) =~= Seq::<Sample>::empty());
                        }
                        if given >= room {
                            Demand::Deliver
                        } else {
                            Demand::Fetch
                        }
                    },
                }
            },
            None => {
                proof {
                    assert(before.take(0) =~= Seq::<Sample>::empty());
                    assert(before.skip(0) =~= before);
                    assert(collected@ + before.take(0) =~= collected@);
                }
                Demand::Fetch
            },
        }
    }

    /// Takes in the converted samples of one decoded packet. They replace
    /// what was buffered, which a pull has used up before it asks for more.
    pub fn feed(&mut self, chunk: Vec<Sample>)
        ensures
            final(self)@ == (AudioDecoderView { buffered: chunk@, ..old(self)@ }),
    {
        self.buffer = Some(Buffer::new(chunk));
    }

    /// Notes that the stream is over: every later pull delivers nothing.
    pub fn finish(&mut self)
        ensures
            final(self)@ == (AudioDecoderView { eof_reached: true, ..old(self)@ }),
    {
        self.eof_reached = true;
    }
}

/// A pull that lacks samples takes what is buffered up to the count it was
/// asked for and never more; it asks for a further packet only when the
/// buffer is used up and the count not reached; and once the stream is over
/// it takes nothing and delivers.
pub proof fn law_pull_takes_no_more_than_asked(
    decoder: AudioDecoderView,
    collected: nat,
    count: nat,
)
    ensures
        decoder.taken(collected, count) <= decoder.buffered.len(),
        collected <= count ==> collected + decoder.taken(collected, count) <= count,
        decoder.demand(collected, count) == Demand::Fetch ==> decoder.taken(collected, count)
            == decoder.buffered.len() && collected + decoder.buffered.len() < count,
        decoder.eof_reached ==> decoder.taken(collected, count) == 0 && decoder.demand(
            collected,
            count,
        ) == Demand::Deliver,
{
}

} // verus!
