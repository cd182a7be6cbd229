//! Plain descriptions of audio and of what is on air.

use vstd::prelude::*;

verus! {

/// One PCM sample, held as the 32 bits of its IEEE-754 single-precision
/// encoding. Silence is the all-zero pattern.
pub type Sample = u32;

/// The PCM contract between a source and the encoder.
#[derive(Clone, Copy, Debug, PartialEq, Eq, Structural, Hash)]
pub struct AudioFormat {
    pub channels: u8,
    pub sample_rate: u32,
}

/// What a listener is told about the track on air.
#[derive(Debug, PartialEq, Eq, Hash)]
pub struct Track {
    pub title: Option<String>,
    pub subtitle: Option<String>,
    pub author: Option<String>,
    pub source_url: Option<String>,
    pub background_url: Option<String>,
    pub audio_url: String,
}

/// A copy of an optional text.
fn clone_text(text: &Option<String>) -> (copy: Option<String>)
    ensures
        copy == *text,
{
    match text {
        Some(s) => Some(s.clone()),
        None => None,
    }
}

impl Clone for Track {
    fn clone(&self) -> (copy: Track)
        ensures
            copy == *self,
    {
        Track {
            title: clone_text(&self.title),
            subtitle: clone_text(&self.subtitle),
            author: clone_text(&self.author),
            source_url: clone_text(&self.source_url),
            background_url: clone_text(&self.background_url),
            audio_url: self.audio_url.clone(),
        }
    }
}

/// The number of listeners currently connected.
#[derive(Clone, Copy, Debug, PartialEq, Eq, Structural, Hash)]
pub struct Listeners {
    pub listeners: usize,
}

/// Why a source stopped delivering samples.
#[derive(Clone, Copy, Debug, PartialEq, Eq, Structural, Hash)]
pub enum SourceError {
    /// The bytes of the track could not be fetched.
    Fetch,
    /// The bytes of the track could not be decoded.
    Decode,
    /// The source delivers a format other than the one agreed on.
    FormatMismatch,
}

/// A pull-based producer of PCM samples in a fixed format.
pub trait AudioSource {
    /// The format of every sample this source delivers.
    spec fn spec_format(&self) -> AudioFormat;

    /// The format of every sample this source delivers.
    fn format(&self) -> (format: AudioFormat)
        ensures
            format == self.spec_format(),
    ;

    /// Delivers at most `count` further samples. An empty vector means that
    /// the source is exhausted. The format stays what it was.
    fn pull(&mut self, count: usize) -> (r: Result<Vec<Sample>, SourceError>)
        ensures
            r is Ok ==> r->Ok_0@.len() <= count,
            final(self).spec_format() == old(self).spec_format(),
    ;
}

/// `count` samples of silence.
pub open spec fn spec_silence(count: nat) -> Seq<Sample> {
    Seq::new(count, |i: int| 0u32)
}

/// `count` samples of silence.
pub fn silence(count: usize) -> (samples: Vec<Sample>)
    ensures
        samples@ == spec_silence(count as nat),
{
    let mut samples: Vec<Sample> = Vec::new();
    let mut i: usize = 0;
    while i < count
        invariant
            i <= count,
            samples@ == spec_silence(i as nat),
        decreases count - i,
    {
        samples.push(0);
        assert(samples@ =~= spec_silence((i + 1) as nat));
        i = i + 1;
    }
    samples
}

} // verus!
