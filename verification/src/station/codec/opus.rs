//! The two header packets of an Opus stream, and the assembly of the PCM
//! frames that the codec is fed.

use crate::audio::{spec_silence, AudioFormat, AudioSource, Sample, SourceError};
use crate::station::codec::Options;
use vstd::prelude::*;
use vstd::string::*;

verus! {

/// Samples the decoder is told to skip at the start of the stream.
pub const PRE_SKIP: u16 = 312;

/// The vendor string of this encoder.
pub const VENDOR: &'static str = "quartz 0.1.0";

/// The single comment this encoder writes.
pub const ENCODER_COMMENT: &'static str = "encoder=quartz 0.1.0 libopus";

/// The eight bytes `OpusHead`.
pub open spec fn head_magic() -> Seq<u8> {
    seq![0x4fu8, 0x70u8, 0x75u8, 0x73u8, 0x48u8, 0x65u8, 0x61u8, 0x64u8]
}

/// The eight bytes `OpusTags`.
pub open spec fn tags_magic() -> Seq<u8> {
    seq![0x4fu8, 0x70u8, 0x75u8, 0x73u8, 0x54u8, 0x61u8, 0x67u8, 0x73u8]
}

/// The two bytes of `x`, least significant first.
pub open spec fn le16(x: u16) -> Seq<u8> {
    seq![(x % 256) as u8, (x / 256) as u8]
}

/// The four bytes of `x`, least significant first.
pub open spec fn le32(x: u32) -> Seq<u8> {
    seq![
        (x % 256) as u8,
        (x / 256 % 256) as u8,
        (x / 65536 % 256) as u8,
        (x / 16777216) as u8,
    ]
}

/// The number whose four bytes, least significant first, are `b0` to `b3`.
pub open spec fn from_le32(b0: u8, b1: u8, b2: u8, b3: u8) -> u32 {
    (b0 as int + b1 as int * 256 + b2 as int * 65536 + b3 as int * 16777216) as u32
}

/// The identification header for `format`: the magic, version 1, the channel
/// count, the pre-skip, the sample rate, a zero output gain and channel
/// mapping family 0; 19 bytes.
pub open spec fn spec_header(format: AudioFormat) -> Seq<u8> {
    head_magic() + seq![1u8, format.channels] + le16(PRE_SKIP) + le32(format.sample_rate)
        + seq![0u8, 0u8, 0u8]
}

/// The format that an identification header states, where `bytes` is one:
/// 19 bytes that start with the magic, give version 1 and end in channel
/// mapping family 0.
pub open spec fn spec_parse_header(bytes: Seq<u8>) -> Option<AudioFormat> {
    if bytes.len() == 19 && bytes.subrange(0, 8) == head_magic() && bytes[8] == 1 && bytes[18]
        == 0 {
        Some(
            AudioFormat {
                channels: bytes[9],
                sample_rate: from_le32(bytes[12], bytes[13], bytes[14], bytes[15]),
            },
        )
    } else {
        None
    }
}

/// The comments of a comment header, each behind its length.
pub open spec fn spec_comments(comments: Seq<Seq<u8>>) -> Seq<u8>
    decreases comments.len(),
{
    if comments.len() == 0 {
        Seq::<u8>::empty()
    } else {
        spec_comments(comments.drop_last()) + le32(comments.last().len() as u32)
            + comments.last()
    }
}

/// The comment header: the magic, the vendor string behind its length, the
/// number of comments, and the comments, each behind its length.
pub open spec fn spec_tags(vendor: Seq<u8>, comments: Seq<Seq<u8>>) -> Seq<u8> {
    tags_magic() + le32(vendor.len() as u32) + vendor + le32(comments.len() as u32)
        + spec_comments(comments)
}

/// Whether the lengths that a comment header states fit its 32-bit fields.
pub open spec fn tags_fit(vendor: Seq<u8>, comments: Seq<Seq<u8>>) -> bool {
    &&& vendor.len() <= u32::MAX
    &&& comments.len() <= u32::MAX
    &&& forall|i: int| 0 <= i < comments.len() ==> (#[trigger] comments[i]).len() <= u32::MAX
}

/// Appends the two bytes of `x`, least significant first.
fn push_le16(out: &mut Vec<u8>, x: u16)
    ensures
        final(out)@ == old(out)@ + le16(x),
{
    out.push((x % 256) as u8);
    out.push((x / 256) as u8);
    assert(out@ =~= old(out)@ + le16(x));
}

/// Appends the four bytes of `x`, least significant first.
fn push_le32(out: &mut Vec<u8>, x: u32)
    ensures
        final(out)@ == old(out)@ + le32(x),
{
    out.push((x % 256) as u8);
    out.push((x / 256 % 256) as u8);
    out.push((x / 65536 % 256) as u8);
    out.push((x / 16777216) as u8);
    assert(out@ =~= old(out)@ + le32(x));
}

/// Appends a copy of `bytes`.
fn push_all(out: &mut Vec<u8>, bytes: &[u8])
    ensures
        final(out)@ == old(out)@ + bytes@,
{
    let mut i: usize = 0;
    while i < bytes.len()
        invariant
            i <= bytes@.len(),
            out@ == old(out)@ + bytes@.take(i as int),
        decreases bytes@.len() - i,
    {
        out.push(bytes[i]);
        assert(bytes@.take(i as int + 1) =~= bytes@.take(i as int).push(bytes@[i as int]));
        assert(out@ =~= old(out)@ + bytes@.take(i as int + 1));
        i = i + 1;
    }
    assert(bytes@.take(i as int) =~= bytes@);
}

/// The identification header for `format`.
pub fn write_header(format: AudioFormat) -> (header: Vec<u8>)
    ensures
        header@ == spec_header(format),
        header@.len() == 19,
{
    let mut header: Vec<u8> = Vec::new();
    header.push(0x4f);
    header.push(0x70);
    header.push(0x75);
    header.push(0x73);
    header.push(0x48);
    header.push(0x65);
    header.push(0x61);
    header.push(0x64);
    header.push(1);
    header.push(format.channels);
    assert(header@ =~= head_magic() + seq![1u8, format.channels]);
    push_le16(&mut header, PRE_SKIP);
    push_le32(&mut header, format.sample_rate);
    header.push(0);
    header.push(0);
    header.push(0);
    assert(header@ =~= spec_header(format));
    header
}

/// Reads an identification header back: the format it states, or nothing
/// where `bytes` is not such a header.
pub fn parse_header(bytes: &[u8]) -> (format: Option<AudioFormat>)
    ensures
        format == spec_parse_header(bytes@),
{
    if bytes.len() != 19 {
        return None;
    }
    if bytes[0] != 0x4f || bytes[1] != 0x70 || bytes[2] != 0x75 || bytes[3] != 0x73 || bytes[4]
        != 0x48 || bytes[5] != 0x65 || bytes[6] != 0x61 || bytes[7] != 0x64 {
        assert(bytes@.subrange(0, 8) != head_magic()) by {
            if bytes@.subrange(0, 8) == head_magic() {
                assert(bytes@.subrange(0, 8)[0] == head_magic()[0]);
                assert(bytes@.subrange(0, 8)[1] == head_magic()[1]);
                assert(bytes@.subrange(0, 8)[2] == head_magic()[2]);
                assert(bytes@.subrange(0, 8)[3] == head_magic()[3]);
                assert(bytes@.subrange(0, 8)[4] == head_magic()[4]);
                assert(bytes@.subrange(0, 8)[5] == head_magic()[5]);
                assert(bytes@.subrange(0, 8)[6] == head_magic()[6]);
                assert(bytes@.subrange(0, 8)[7] == head_magic()[7]);
            }
        }
        return None;
    }
    assert(bytes@.subrange(0, 8) =~= head_magic());
    if bytes[8] != 1 || bytes[18] != 0 {
        return None;
    }
    let b0: u32 = bytes[12] as u32;
    let b1: u32 = bytes[13] as u32;
    let b2: u32 = bytes[14] as u32;
    let b3: u32 = bytes[15] as u32;
    let sample_rate: u32 = b0 + b1 * 256 + b2 * 65536 + b3 * 16777216;
    Some(AudioFormat { channels: bytes[9], sample_rate })
}

/// Parsing an identification header that was written for `format` gives
/// `format` back: its channel count and its sample rate.
pub proof fn law_header_round_trip(format: AudioFormat)
    ensures
        spec_header(format).len() == 19,
        spec_parse_header(spec_header(format)) == Some(format),
{
    let bytes = spec_header(format);
    assert(bytes.subrange(0, 8) =~= head_magic());
    let x = format.sample_rate;
    assert(bytes[12] == (x % 256) as u8);
    assert(bytes[13] == (x / 256 % 256) as u8);
    assert(bytes[14] == (x / 65536 % 256) as u8);
    assert(bytes[15] == (x / 16777216) as u8);
    assert(from_le32(bytes[12], bytes[13], bytes[14], bytes[15]) == x);
}

/// Appending one comment to the list appends its length and its bytes to
/// what is written for the list.
proof fn lemma_comments_push(comments: Seq<Seq<u8>>, comment: Seq<u8>)
    ensures
        spec_comments(comments.push(comment)) == spec_comments(comments) + le32(
            comment.len() as u32,
        ) + comment,
{
    assert(comments.push(comment).drop_last() =~= comments);
}

/// The comment header for `vendor` and `comments`, or nothing where one of
/// the lengths it would have to state does not fit 32 bits.
pub fn write_tags(vendor: &[u8], comments: &Vec<Vec<u8>>) -> (tags: Option<Vec<u8>>)
    ensures
        tags is Some <==> tags_fit(vendor@, comments@.map_values(|c: Vec<u8>| c@)),
        tags is Some ==> tags->Some_0@ == spec_tags(
            vendor@,
            comments@.map_values(|c: Vec<u8>| c@),
        ),
{
    let ghost all = comments@.map_values(|c: Vec<u8>| c@);
    if vendor.len() > 0xffff_ffff || comments.len() > 0xffff_ffff {
        return None;
    }
    let mut tags: Vec<u8> = Vec::new();
    tags.push(0x4f);
    tags.push(0x70);
    tags.push(0x75);
    tags.push(0x73);
    tags.push(0x54);
    tags.push(0x61);
    tags.push(0x67);
    tags.push(0x73);
    assert(tags@ =~= tags_magic());
    push_le32(&mut tags, vendor.len() as u32);
    push_all(&mut tags, vendor);
    push_le32(&mut tags, comments.len() as u32);
    let ghost prefix = tags@;
    let mut i: usize = 0;
    while i < comments.len()
        invariant
            i <= comments@.len(),
            all == comments@.map_values(|c: Vec<u8>| c@),
            tags@ == prefix + spec_comments(all.take(i as int)),
            forall|j: int| 0 <= j < i ==> (#[trigger] all[j]).len() <= u32::MAX,
        decreases comments@.len() - i,
    {
        let comment = &comments[i];
        if comment.len() > 0xffff_ffff {
            assert(all[i as int].len() > u32::MAX);
            return None;
        }
        let ghost before = tags@;
        push_le32(&mut tags, comment.len() as u32);
        push_all(&mut tags, comment.as_slice());
        proof {
            lemma_comments_push(all.take(i as int), all[i as int]);
            assert(all.take(i as int + 1) =~= all.take(i as int).push(all[i as int]));
            assert(tags@ =~= prefix + spec_comments(all.take(i as int + 1)));
        }
        i = i + 1;
    }
    proof {
        assert(all.take(i as int) =~= all);
    }
    Some(tags)
}

/// The comment header of this encoder: its vendor string and its one
/// comment.
pub fn write_session_tags() -> (tags: Vec<u8>)
    ensures
        tags@ == spec_tags(VENDOR.spec_bytes(), seq![ENCODER_COMMENT.spec_bytes()]),
        VENDOR.spec_bytes().len() == 12,
        ENCODER_COMMENT.spec_bytes().len() == 28,
{
    proof {
        reveal_strlit("quartz 0.1.0");
        reveal_strlit("encoder=quartz 0.1.0 libopus");
        assert(is_ascii(VENDOR));
        assert(is_ascii(ENCODER_COMMENT));
    }
    let mut comments: Vec<Vec<u8>> = Vec::new();
    let mut comment: Vec<u8> = Vec::new();
    push_all(&mut comment, ENCODER_COMMENT.as_bytes());
    comments.push(comment);
    assert(comments@.map_values(|c: Vec<u8>| c@) =~= seq![ENCODER_COMMENT.spec_bytes()]);
    match write_tags(VENDOR.as_bytes(), &comments) {
        Some(tags) => tags,
        None => {
            proof {
                assert(false);
            }
            Vec::new()
        },
    }
}

/// Why an encoding session could not be set up.
#[derive(Clone, Copy, Debug, PartialEq, Eq, Structural, Hash)]
pub enum InitError {
    /// The codec does not support the sample rate or the channel count.
    Format,
    /// The complexity is above 10.
    Complexity,
}

/// The sample rates the codec supports.
pub open spec fn supported_rate(rate: u32) -> bool {
    rate == 8000 || rate == 12000 || rate == 16000 || rate == 24000 || rate == 48000
}

/// The formats the codec supports: one of its sample rates, mono or stereo.
pub open spec fn supported(format: AudioFormat) -> bool {
    supported_rate(format.sample_rate) && (format.channels == 1 || format.channels == 2)
}

/// The sample that stands in for the first sample of a frame of silence: one
/// ten-thousandth, in its single-precision encoding.
pub const EPSILON: Sample = 0x38d1_b717;

/// Whether a sample is exactly zero, of either sign.
pub open spec fn is_zero(sample: Sample) -> bool {
    sample == 0 || sample == 0x8000_0000u32
}

/// Whether every sample of the frame is exactly zero.
pub open spec fn all_zero(frame: Seq<Sample>) -> bool {
    forall|i: int| 0 <= i < frame.len() ==> is_zero(#[trigger] frame[i])
}

/// The first `len` of the samples collected, padded with silence where they
/// are fewer.
pub open spec fn spec_pad_frame(collected: Seq<Sample>, len: nat) -> Seq<Sample> {
    if collected.len() >= len {
        collected.take(len as int)
    } else {
        collected + spec_silence((len - collected.len()) as nat)
    }
}

/// The frame of `len` samples that is fed to the codec for the samples
/// collected from a source: they are cut or padded with silence to the full
/// length, and where every sample is then zero, the first is replaced by
/// `EPSILON`, since some players stall on the packet that the codec makes of
/// total silence.
pub open spec fn spec_finish_frame(collected: Seq<Sample>, len: nat) -> Seq<Sample> {
    let padded = spec_pad_frame(collected, len);
    if len > 0 && all_zero(padded) {
        padded.update(0, EPSILON)
    } else {
        padded
    }
}

/// How the collection of a frame stands after a source delivered a part.
#[derive(Clone, Copy, Debug, PartialEq, Eq, Structural, Hash)]
pub enum Progress {
    /// The frame is not full yet: pull again.
    More,
    /// The frame is full.
    Full,
    /// The source delivered nothing more: the frame ends with what was
    /// collected, and silence.
    Ended,
    /// The source delivered nothing at all: there is no frame.
    Exhausted,
}

/// How the collection of a frame of `len` samples stands once `part` has
/// been delivered after `collected`.
pub open spec fn spec_progress(collected: Seq<Sample>, part: Seq<Sample>, len: nat) -> Progress {
    if part.len() == 0 {
        if collected.len() == 0 {
            Progress::Exhausted
        } else {
            Progress::Ended
        }
    } else if collected.len() + part.len() >= len {
        Progress::Full
    } else {
        Progress::More
    }
}

/// The part of the frame encoder that needs no codec: it admits formats,
/// sizes and assembles the frames, and writes the two header packets.
pub struct OpusEncoder {
    format: AudioFormat,
    frame_len: usize,
}

impl OpusEncoder {
    /// The format of the session.
    pub closed spec fn spec_format(&self) -> AudioFormat {
        self.format
    }

    /// The number of samples in one frame, all channels together.
    pub closed spec fn spec_frame_size(&self) -> nat {
        self.frame_len as nat
    }

    /// The format is one the codec supports, and a frame holds the same
    /// number of samples, at least one, for each channel.
    #[verifier::type_invariant]
    closed spec fn wf(&self) -> bool {
        &&& supported(self.format)
        &&& self.frame_len >= self.format.channels
        &&& self.frame_len % (self.format.channels as usize) == 0
    }

    /// Sets up the session, or says why the codec would refuse it.
    pub fn new(format: AudioFormat, options: &Options) -> (made: Result<OpusEncoder, InitError>)
        ensures
            made is Ok <==> supported(format) && options.complexity <= 10,
            made == Err::<OpusEncoder, InitError>(InitError::Format) <==> !supported(format),
            made is Ok ==> {
                &&& made->Ok_0.spec_format() == format
                &&& made->Ok_0.spec_frame_size() == options.frame_size.spec_sample_count(
                    format.sample_rate,
                ) * format.channels
            },
    {
        let rate: u32 = format.sample_rate;
        if !(rate == 8000 || rate == 12000 || rate == 16000 || rate == 24000 || rate == 48000) {
            return Err(InitError::Format);
        }
        if !(format.channels == 1 || format.channels == 2) {
            return Err(InitError::Format);
        }
        if options.complexity > 10 {
            return Err(InitError::Complexity);
        }
        let per_channel: u32 = options.frame_size.as_sample_count(rate);
        assert(per_channel >= 20) by (nonlinear_arith)
            requires
                per_channel == (options.frame_size.micros() * rate as nat) / 1_000_000,
                options.frame_size.micros() >= 2500,
                rate >= 8000,
        ;
        let frame_len: usize = per_channel as usize * format.channels as usize;
        assert(frame_len % (format.channels as usize) == 0) by (nonlinear_arith)
            requires
                frame_len == per_channel * format.channels,
                format.channels > 0,
        ;
        Ok(OpusEncoder { format, frame_len })
    }

    /// The number of samples in one frame, all channels together.
    pub fn frame_size(&self) -> (size: u64)
        ensures
            size == self.spec_frame_size(),
            size >= self.spec_format().channels,
            size % (self.spec_format().channels as u64) == 0,
    {
        proof {
            use_type_invariant(self);
        }
        self.frame_len as u64
    }

    /// The format of the session.
    pub fn format(&self) -> (format: AudioFormat)
        ensures
            format == self.spec_format(),
            supported(format),
    {
        proof {
            use_type_invariant(self);
        }
        self.format
    }

    /// The identification header of the session.
    pub fn write_header(&self) -> (header: Vec<u8>)
        ensures
            header@ == spec_header(self.spec_format()),
    {
        write_header(self.format)
    }

    /// The comment header of the session.
    pub fn write_tags(&self) -> (tags: Vec<u8>)
        ensures
            tags@ == spec_tags(VENDOR.spec_bytes(), seq![ENCODER_COMMENT.spec_bytes()]),
    {
        write_session_tags()
    }

    /// Makes a frame of the samples collected from a source.
    pub fn finish_frame(&self, collected: Vec<Sample>) -> (frame: Vec<Sample>)
        ensures
            frame@ == spec_finish_frame(collected@, self.spec_frame_size()),
            frame@.len() == self.spec_frame_size(),
            !all_zero(frame@),
    {
        proof {
            use_type_invariant(self);
        }
        let mut frame: Vec<Sample> = collected;
        frame.truncate(self.frame_len);
        let ghost head = frame@;
        assert(head =~= collected@.take(head.len() as int));
        while frame.len() < self.frame_len
            invariant
                head.len() <= frame@.len() <= self.frame_len,
                head.len() < self.frame_len ==> head == collected@,
                frame@ == head + spec_silence((frame@.len() - head.len()) as nat),
            decreases self.frame_len - frame@.len(),
        {
            frame.push(0);
            assert(frame@ =~= head + spec_silence((frame@.len() - head.len()) as nat));
        }
        assert(frame@ =~= spec_pad_frame(collected@, self.frame_len as nat));
        let ghost padded = frame@;
        let mut i: usize = 0;
        let mut zero: bool = true;
        while i < frame.len() && zero
            invariant
                i <= frame@.len(),
                frame@ == padded,
                zero ==> forall|j: int| 0 <= j < i ==> is_zero(#[trigger] padded[j]),
                !zero ==> !all_zero(padded),
            decreases frame@.len() - i, zero as int,
        {
            if frame[i] == 0 || frame[i] == 0x8000_0000 {
                i = i + 1;
            } else {
                zero = false;
            }
        }
        if zero && frame.len() > 0 {
            frame.set(0, EPSILON);
            assert(!is_zero(frame@[0]));
        }
        frame
    }

    /// Takes in what a source delivered for a frame under collection, and
    /// says how the collection stands.
    pub fn absorb(&self, collected: &mut Vec<Sample>, part: Vec<Sample>) -> (progress: Progress)
        ensures
            final(collected)@ == old(collected)@ + part@,
            progress == spec_progress(old(collected)@, part@, self.spec_frame_size()),
    {
        if part.len() == 0 {
            assert(collected@ =~= old(collected)@ + part@);
            if collected.len() == 0 {
                Progress::Exhausted
            } else {
                Progress::Ended
            }
        } else {
            push_samples(collected, &part);
            if collected.len() >= self.frame_len {
                Progress::Full
            } else {
                Progress::More
            }
        }
    }

    /// Collects one frame from `source`: pulls until the frame is full or
    /// the source is exhausted, then finishes the frame. No frame is made
    /// where the source is exhausted before it has delivered a sample; an
    /// error of the source is handed on.
    pub fn pull_frame<S: AudioSource>(&self, source: &mut S) -> (pulled: Result<
        Option<Vec<Sample>>,
        SourceError,
    >)
        ensures
            final(source).spec_format() == old(source).spec_format(),
            pulled is Ok && pulled->Ok_0 is Some ==> {
                &&& pulled->Ok_0->Some_0@.len() == self.spec_frame_size()
                &&& !all_zero(pulled->Ok_0->Some_0@)
            },
    {
        proof {
            use_type_invariant(self);
        }
        let mut collected: Vec<Sample> = Vec::new();
        loop
            invariant
                collected@.len() < self.frame_len,
                source.spec_format() == old(source).spec_format(),
            decreases self.frame_len - collected@.len(),
        {
            let count: usize = self.wanted(&collected);
            let answer = source.pull(count);
            match self.gather(collected, answer) {
                Gathered::More(longer) => {
                    collected = longer;
                },
                Gathered::Done(result) => {
                    return result;
                },
            }
        }
    }

    /// How many samples a frame under collection still lacks: what the
    /// source is asked for next.
    pub fn wanted(&self, collected: &Vec<Sample>) -> (count: usize)
        ensures
            count == spec_wanted(collected@, self.spec_frame_size()),
    {
        if collected.len() < self.frame_len {
            self.frame_len - collected.len()
        } else {
            0
        }
    }

    /// Decides what a pull of a frame comes to once the source has answered:
    /// its error is handed on; an answer that leaves the frame short is
    /// added to the collection, and the source is to be asked again; an
    /// empty answer to the first request means that there is no frame; any
    /// other answer completes the frame, which is finished and returned.
    pub fn gather(&self, collected: Vec<Sample>, answer: Result<Vec<Sample>, SourceError>) -> (gathered:
        Gathered)
        ensures
            gathered@ == spec_gather(collected@, answer, self.spec_frame_size()),
            gathered is Done && gathered->Done_0 is Ok && gathered->Done_0->Ok_0 is Some ==> {
                &&& gathered->Done_0->Ok_0->Some_0@.len() == self.spec_frame_size()
                &&& !all_zero(gathered->Done_0->Ok_0->Some_0@)
            },
    {
        match answer {
            Err(error) => Gathered::Done(Err(error)),
            Ok(part) => {
                let mut collected = collected;
                match self.absorb(&mut collected, part) {
                    Progress::More => Gathered::More(collected),
                    Progress::Exhausted => Gathered::Done(Ok(None)),
                    Progress::Full => Gathered::Done(Ok(Some(self.finish_frame(collected)))),
                    Progress::Ended => Gathered::Done(Ok(Some(self.finish_frame(collected)))),
                }
            },
        }
    }
}

/// What a pull of a frame has come to after an answer of the source.
#[derive(Debug)]
pub enum Gathered {
    /// The frame is still short: this is what is collected so far, and the
    /// source is to be asked again.
    More(Vec<Sample>),
    /// The pull is over and returns this.
    Done(Result<Option<Vec<Sample>>, SourceError>),
}

/// What a pull of a frame has come to, as a mathematical value.
pub enum GatheredView {
    More(Seq<Sample>),
    Done(Result<Option<Seq<Sample>>, SourceError>),
}

impl View for Gathered {
    type V = GatheredView;

    open spec fn view(&self) -> GatheredView {
        match *self {
            Gathered::More(collected) => GatheredView::More(collected@),
            Gathered::Done(Err(error)) => GatheredView::Done(Err(error)),
            Gathered::Done(Ok(None)) => GatheredView::Done(Ok(None)),
            Gathered::Done(Ok(Some(frame))) => GatheredView::Done(Ok(Some(frame@))),
        }
    }
}

/// How many samples a frame of `len` samples still lacks.
pub open spec fn spec_wanted(collected: Seq<Sample>, len: nat) -> nat {
    if collected.len() < len {
        (len - collected.len()) as nat
    } else {
        0
    }
}

/// What a pull of a frame of `len` samples comes to once the source has
/// given `answer` after `collected`.
pub open spec fn spec_gather(
    collected: Seq<Sample>,
    answer: Result<Vec<Sample>, SourceError>,
    len: nat,
) -> GatheredView {
    match answer {
        Err(error) => GatheredView::Done(Err(error)),
        Ok(part) => match spec_progress(collected, part@, len) {
            Progress::More => GatheredView::More(collected + part@),
            Progress::Exhausted => GatheredView::Done(Ok(None)),
            _ => GatheredView::Done(Ok(Some(spec_finish_frame(collected + part@, len)))),
        },
    }
}

/// Appends a copy of `samples`.
fn push_samples(out: &mut Vec<Sample>, samples: &Vec<Sample>)
    ensures
        final(out)@ == old(out)@ + samples@,
{
    let mut i: usize = 0;
    while i < samples.len()
        invariant
            i <= samples@.len(),
            out@ == old(out)@ + samples@.take(i as int),
        decreases samples@.len() - i,
    {
        out.push(samples[i]);
        assert(samples@.take(i as int + 1) =~= samples@.take(i as int).push(samples@[i as int]));
        assert(out@ =~= old(out)@ + samples@.take(i as int + 1));
        i = i + 1;
    }
    assert(samples@.take(i as int) =~= samples@);
}

} // verus!
