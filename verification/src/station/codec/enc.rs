//! The page encoder's policy: how packets are stamped, when a page is
//! forced out, and what duration and number each page carries.

use crate::audio::{AudioFormat, AudioSource, Sample, SourceError};
use crate::station::codec::ogg::{wrapping_add, wrapping_sum, OggStream, OggStreamView, PacketHeader};
use crate::station::codec::opus::{
    all_zero, spec_header, spec_tags, supported, InitError, OpusEncoder, ENCODER_COMMENT, VENDOR,
};
use crate::station::codec::page::{Page, PageView};
use crate::station::codec::Options;
use vstd::prelude::*;
use vstd::string::*;

verus! {

/// The time that `samples` samples per channel last at `sample_rate` samples
/// per second: in whole nanoseconds, rounded down, and held at the largest
/// value where it would pass it.
pub open spec fn duration_of(samples: u64, sample_rate: u32) -> u64
    recommends
        sample_rate > 0,
{
    let exact = (samples as int * 1_000_000_000) / (sample_rate as int);
    if exact > u64::MAX {
        u64::MAX
    } else {
        exact as u64
    }
}

/// The number of samples per channel that are played in `duration`
/// nanoseconds at `sample_rate` samples per second, rounded down.
pub open spec fn samples_in(duration: u64, sample_rate: u32) -> nat {
    (duration as nat * sample_rate as nat) / 1_000_000_000
}

/// The samples of whole seconds last exactly those seconds: at any rate,
/// `seconds` times the rate in samples last `seconds` times a thousand
/// million nanoseconds, and that many nanoseconds hold exactly those
/// samples.
pub proof fn law_whole_seconds_are_exact(seconds: u32, sample_rate: u32)
    requires
        sample_rate > 0,
    ensures
        duration_of((seconds * sample_rate) as u64, sample_rate) == seconds * 1_000_000_000,
        samples_in((seconds * 1_000_000_000) as u64, sample_rate) == seconds * sample_rate,
{
    let s = seconds as int;
    let r = sample_rate as int;
    assert(0 <= s * r <= 0xffff_ffff * 0xffff_ffff) by (nonlinear_arith)
        requires
            0 <= s <= 0xffff_ffff,
            0 <= r <= 0xffff_ffff,
    ;
    assert(((s * r) * 1_000_000_000) / r == s * 1_000_000_000) by (nonlinear_arith)
        requires
            r > 0,
    ;
    assert(((s * 1_000_000_000) * r) / 1_000_000_000 == s * r) by (nonlinear_arith);
}

/// What a page encoder is, as a mathematical value.
pub struct EncoderView {
    /// The format of the session.
    pub format: AudioFormat,
    /// Samples per channel in one frame.
    pub samples_per_frame: u64,
    /// The longest duration of a page, in nanoseconds.
    pub max_page: u64,
    /// Samples per channel put since the last page.
    pub accumulated: u64,
    /// The number of the next page.
    pub next_id: u64,
    /// The bookkeeping of the stream.
    pub ogg: OggStreamView,
}

impl EncoderView {
    /// The number of samples per channel at which a page is forced out:
    /// as many as are played in the longest duration of a page.
    pub open spec fn max_samples_per_page(self) -> nat {
        samples_in(self.max_page, self.format.sample_rate)
    }

    /// The samples accumulated once one more frame is put.
    pub open spec fn accumulated_after_packet(self) -> u64 {
        if self.accumulated + self.samples_per_frame > u64::MAX {
            u64::MAX
        } else {
            (self.accumulated + self.samples_per_frame) as u64
        }
    }

    /// Whether the page must be forced out once one more frame is put: the
    /// samples accumulated then reach the most a page may hold.
    pub open spec fn flush_after_packet(self) -> bool {
        self.accumulated_after_packet() >= self.max_samples_per_page()
    }

    /// The encoder after the packet of one more frame is put.
    pub open spec fn packet(self) -> EncoderView {
        EncoderView {
            accumulated: self.accumulated_after_packet(),
            ogg: self.ogg.put(self.samples_per_frame),
            ..self
        }
    }

    /// The page made of the bytes drained from the muxer, if there are any:
    /// it lasts as long as the samples accumulated and takes the next number.
    pub open spec fn page(self, data: Seq<u8>) -> Option<PageView> {
        if data.len() == 0 {
            None
        } else {
            Some(
                PageView {
                    data,
                    duration: duration_of(self.accumulated, self.format.sample_rate),
                    id: self.next_id,
                },
            )
        }
    }

    /// The encoder after the muxer was drained of `data`: with a page made,
    /// the accumulator starts over and the numbering moves on.
    pub open spec fn drained(self, data: Seq<u8>) -> EncoderView {
        if data.len() == 0 {
            self
        } else {
            EncoderView { accumulated: 0, next_id: wrapping_sum(self.next_id, 1), ..self }
        }
    }
}

/// One packet ready for the muxer: its bytes and its stamp.
pub struct Packet {
    pub data: Vec<u8>,
    pub header: PacketHeader,
}

/// What to do with the muxer after a packet was fed to it.
#[derive(Clone, Copy, Debug, PartialEq, Eq, Structural, Hash)]
pub struct Put {
    /// The stamp of the packet.
    pub header: PacketHeader,
    /// Whether the muxer must flush: the page has reached its longest
    /// duration.
    pub flush: bool,
}

/// What follows once the muxer was drained.
#[derive(Debug)]
pub enum Step {
    /// A page was made. Where the source is exhausted it is the last of the
    /// session.
    Page(Page),
    /// Nothing was drained and the source goes on: encode the next frame.
    Continue,
    /// Nothing was drained and the source is exhausted: the session is over.
    Finished,
}

/// The policy of the page encoder. The codec and the muxer are driven by the
/// caller, one step at a time, as this policy says.
pub struct Encoder {
    opus: OpusEncoder,
    ogg: OggStream,
    max_page: u64,
    samples: u64,
    next_id: u64,
}

impl View for Encoder {
    type V = EncoderView;

    closed spec fn view(&self) -> EncoderView {
        EncoderView {
            format: self.opus.spec_format(),
            samples_per_frame: (self.opus.spec_frame_size() / self.opus.spec_format().channels
                as nat) as u64,
            max_page: self.max_page,
            accumulated: self.samples,
            next_id: self.next_id,
            ogg: self.ogg@,
        }
    }
}

impl Encoder {
    /// The number of samples in one frame, all channels together.
    pub closed spec fn spec_frame_size(&self) -> nat {
        self.opus.spec_frame_size()
    }

    /// Sets up a session, or says why the codec would refuse it.
    pub fn new(format: AudioFormat, options: &Options) -> (made: Result<Encoder, InitError>)
        ensures
            made is Ok <==> supported(format) && options.complexity <= 10,
            made == Err::<Encoder, InitError>(InitError::Format) <==> !supported(format),
            made is Ok ==> {
                &&& made->Ok_0@ == (EncoderView {
                    format,
                    samples_per_frame: options.frame_size.spec_sample_count(format.sample_rate)
                        as u64,
                    max_page: options.max_page,
                    accumulated: 0,
                    next_id: 0,
                    ogg: OggStreamView { started: false, counter: 0, samples: 0 },
                })
                &&& made->Ok_0.spec_frame_size() == options.frame_size.spec_sample_count(
                    format.sample_rate,
                ) * format.channels
            },
    {
        match OpusEncoder::new(format, options) {
            Ok(opus) => {
                proof {
                    let per_channel = options.frame_size.spec_sample_count(format.sample_rate);
                    let channels = format.channels as nat;
                    assert((per_channel * channels) / channels == per_channel)
                        by (nonlinear_arith)
                        requires
                            channels > 0,
                    ;
                }
                Ok(
                    Encoder {
                        opus,
                        ogg: OggStream::new(),
                        max_page: options.max_page,
                        samples: 0,
                        next_id: 0,
                    },
                )
            },
            Err(error) => Err(error),
        }
    }

    /// The format of the session.
    pub fn format(&self) -> (format: AudioFormat)
        ensures
            format == self@.format,
            supported(format),
    {
        self.opus.format()
    }

    /// The identification header as a packet for the muxer. It carries no
    /// samples, and the muxer is to flush after it.
    pub fn header_packet(&mut self) -> (packet: Packet)
        ensures
            packet.data@ == spec_header(old(self)@.format),
            packet.header == old(self)@.ogg.stamp(0),
            final(self)@ == (EncoderView { ogg: old(self)@.ogg.put(0), ..old(self)@ }),
            final(self).spec_frame_size() == old(self).spec_frame_size(),
    {
        let data = self.opus.write_header();
        let header = self.ogg.put(0);
        Packet { data, header }
    }

    /// The comment header as a packet for the muxer. It carries no samples,
    /// and the muxer is to flush after it.
    pub fn tags_packet(&mut self) -> (packet: Packet)
        ensures
            packet.data@ == spec_tags(VENDOR.spec_bytes(), seq![ENCODER_COMMENT.spec_bytes()]),
            packet.header == old(self)@.ogg.stamp(0),
            final(self)@ == (EncoderView { ogg: old(self)@.ogg.put(0), ..old(self)@ }),
            final(self).spec_frame_size() == old(self).spec_frame_size(),
    {
        let data = self.opus.write_tags();
        let header = self.ogg.put(0);
        Packet { data, header }
    }

    /// Collects the next frame for the codec from `source`; no frame means
    /// that the source is exhausted, and the muxer is to flush.
    pub fn pull_frame<S: AudioSource>(&self, source: &mut S) -> (pulled: Result<
        Option<Vec<Sample>>,
        SourceError,
    >)
        ensures
            final(source).spec_format() == old(source).spec_format(),
            pulled is Ok && pulled->Ok_0 is Some ==> {
                &&& pulled->Ok_0->Some_0@.len() == self.spec_frame_size()
                &&& !all_zero(pulled->Ok_0->Some_0@)
            },
    {
        self.opus.pull_frame(source)
    }

    /// Accounts for the packet that the codec made of one frame: gives its
    /// stamp and says whether the muxer must flush after it.
    pub fn packet(&mut self) -> (put: Put)
        ensures
            put.header == old(self)@.ogg.stamp(old(self)@.samples_per_frame),
            put.flush == old(self)@.flush_after_packet(),
            final(self)@ == old(self)@.packet(),
            final(self).spec_frame_size() == old(self).spec_frame_size(),
    {
        let format = self.opus.format();
        let per_frame: u64 = self.opus.frame_size() / (format.channels as u64);
        assert(self.max_page as u128 * format.sample_rate as u128 <= 0xffff_ffff_ffff_ffff
            * 0xffff_ffff) by (nonlinear_arith)
            requires
                self.max_page <= 0xffff_ffff_ffff_ffff,
                format.sample_rate <= 0xffff_ffff,
        ;
        let most: u128 = (self.max_page as u128 * format.sample_rate as u128) / 1_000_000_000;
        let header = self.ogg.put(per_frame);
        self.samples = if self.samples > u64::MAX - per_frame {
            u64::MAX
        } else {
            self.samples + per_frame
        };
        Put { header, flush: self.samples as u128 >= most }
    }

    /// Makes a page of the bytes drained from the muxer, if there are any.
    pub fn page(&mut self, data: &[u8]) -> (page: Option<Page>)
        ensures
            page is Some <==> data@.len() > 0,
            page is Some ==> Some(page->Some_0@) == old(self)@.page(data@),
            final(self)@ == old(self)@.drained(data@),
            final(self).spec_frame_size() == old(self).spec_frame_size(),
    {
        if data.len() == 0 {
            return None;
        }
        let format = self.opus.format();
        let wide: u128 = (self.samples as u128 * 1_000_000_000) / (format.sample_rate as u128);
        let duration: u64 = if wide > u64::MAX as u128 {
            u64::MAX
        } else {
            wide as u64
        };
        let page = Page::new(data, duration, self.next_id);
        self.samples = 0;
        self.next_id = wrapping_add(self.next_id, 1);
        Some(page)
    }

    /// Decides what follows once the muxer was drained of `data`: a page if
    /// there are bytes; else the end of the session if the source is
    /// exhausted, and the next frame if it is not.
    pub fn step(&mut self, data: &[u8], exhausted: bool) -> (step: Step)
        ensures
            step is Page <==> data@.len() > 0,
            step is Page ==> Some(step->Page_0@) == old(self)@.page(data@),
            step is Finished <==> data@.len() == 0 && exhausted,
            step is Continue <==> data@.len() == 0 && !exhausted,
            final(self)@ == old(self)@.drained(data@),
            final(self).spec_frame_size() == old(self).spec_frame_size(),
    {
        match self.page(data) {
            Some(page) => Step::Page(page),
            None => {
                if exhausted {
                    Step::Finished
                } else {
                    Step::Continue
                }
            },
        }
    }
}

} // verus!
