//! The multiplexer: one logical source whose underlying source can be
//! swapped while the broadcast runs.

use crate::audio::{silence, spec_silence, AudioFormat, AudioSource, Sample, SourceError};
use vstd::prelude::*;

verus! {

/// What a multiplexer is, as a mathematical value: the format it delivers,
/// the source on air (none while idle), the switch command that waits to be
/// applied, and the number of completion signals not yet collected.
pub struct MultiplexerView<S> {
    pub format: AudioFormat,
    pub source: Option<S>,
    pub pending: Option<Option<S>>,
    pub completions: u64,
}

impl<S> MultiplexerView<S> {
    /// No source is on air.
    pub open spec fn is_idle(self) -> bool {
        self.source is None
    }

    /// After a switch command was issued: it takes the single slot, whatever
    /// waited there.
    pub open spec fn switch(self, command: Option<S>) -> Self {
        MultiplexerView { pending: Some(command), ..self }
    }

    /// After the waiting command, if any, was applied: its source, or none,
    /// replaces the one on air.
    pub open spec fn apply(self) -> Self {
        match self.pending {
            Some(command) => MultiplexerView { source: command, pending: None, ..self },
            None => self,
        }
    }

    /// After the source on air ended or failed: it is dropped and one
    /// completion is signalled.
    pub open spec fn complete(self) -> Self {
        MultiplexerView {
            source: None,
            completions: if self.completions == u64::MAX {
                u64::MAX
            } else {
                (self.completions + 1) as u64
            },
            ..self
        }
    }

    /// After the source on air answered a pull: it stays on air if it
    /// delivered samples, and completes otherwise.
    pub open spec fn settle(self, outcome: Result<Vec<Sample>, SourceError>) -> Self {
        if delivered(outcome) {
            self
        } else {
            self.complete()
        }
    }
}

/// Whether a source's answer to a pull holds samples: it is neither an
/// error nor the empty answer of an exhausted source.
pub open spec fn delivered(outcome: Result<Vec<Sample>, SourceError>) -> bool {
    outcome is Ok && outcome->Ok_0@.len() > 0
}

/// What the multiplexer hands on for a source's answer to a pull of `count`
/// samples: the samples delivered, or silence.
pub open spec fn settled_samples(
    outcome: Result<Vec<Sample>, SourceError>,
    count: usize,
) -> Seq<Sample> {
    if delivered(outcome) {
        outcome->Ok_0@
    } else {
        spec_silence(count as nat)
    }
}

/// Switching an idle multiplexer to a source puts that source on air; when
/// the source is then exhausted or fails, exactly one completion is
/// signalled and the multiplexer is idle again, and stays so with no
/// further signal until the next switch.
pub proof fn law_exhausted_source_completes_once<S>(
    idle: MultiplexerView<S>,
    source: S,
    outcome: Result<Vec<Sample>, SourceError>,
)
    requires
        idle.is_idle(),
        idle.completions < u64::MAX,
        !delivered(outcome),
    ensures
        idle.switch(Some(source)).apply().source == Some(source),
        idle.switch(Some(source)).apply().settle(outcome).is_idle(),
        idle.switch(Some(source)).apply().settle(outcome).completions == idle.completions + 1,
        idle.switch(Some(source)).apply().settle(outcome).apply() == idle.switch(
            Some(source),
        ).apply().settle(outcome),
{
}

/// Only the command issued last waits to be applied: a switch that follows
/// another before a pull replaces it.
pub proof fn law_latest_switch_wins<S>(
    mux: MultiplexerView<S>,
    first: Option<S>,
    second: Option<S>,
)
    ensures
        mux.switch(first).switch(second) == mux.switch(second),
        mux.switch(first).switch(second).apply().source == second,
{
}

/// What one pull of `count` samples does to a multiplexer and what it
/// delivers. The waiting switch command is applied first. An idle
/// multiplexer then delivers silence and stays as it is. A source on air
/// whose format is not the multiplexer's completes, and silence is
/// delivered. Any other source on air is asked for the samples: either it
/// stays on air, with its format, and some samples of it are delivered, at
/// most `count`; or it completes, and silence is delivered.
pub open spec fn pulled<S: AudioSource>(
    before: MultiplexerView<S>,
    after: MultiplexerView<S>,
    count: usize,
    samples: Seq<Sample>,
) -> bool {
    let applied = before.apply();
    &&& after.format == before.format
    &&& after.pending is None
    &&& samples.len() <= count
    &&& if applied.is_idle() {
        after == applied && samples == spec_silence(count as nat)
    } else if applied.source->Some_0.spec_format() != before.format {
        after == applied.complete() && samples == spec_silence(count as nat)
    } else {
        ||| {
            &&& after.source is Some
            &&& after.source->Some_0.spec_format() == before.format
            &&& after.completions == before.completions
            &&& samples.len() > 0
        }
        ||| {
            &&& after == applied.complete()
            &&& samples == spec_silence(count as nat)
        }
    }
}

/// Arbitrates one logical source: the source on air can be swapped between
/// pulls, and silence is delivered while none is on air.
pub struct Multiplexer<S: AudioSource> {
    format: AudioFormat,
    source: Option<S>,
    pending: Option<Option<S>>,
    completions: u64,
}

impl<S: AudioSource> View for Multiplexer<S> {
    type V = MultiplexerView<S>;

    closed spec fn view(&self) -> MultiplexerView<S> {
        MultiplexerView {
            format: self.format,
            source: self.source,
            pending: self.pending,
            completions: self.completions,
        }
    }
}

impl<S: AudioSource> Multiplexer<S> {
    /// An idle multiplexer that delivers `format`.
    pub fn new(format: AudioFormat) -> (mux: Self)
        ensures
            mux@ == (MultiplexerView::<S> { format, source: None, pending: None, completions: 0 }),
    {
        Multiplexer { format, source: None, pending: None, completions: 0 }
    }

    /// Issues a switch command: to the given source, or to none. It is
    /// applied at the next pull, unless another command replaces it first.
    pub fn switch(&mut self, command: Option<S>)
        ensures
            final(self)@ == old(self)@.switch(command),
    {
        self.pending = Some(command);
    }

    /// Whether no source is on air.
    pub fn is_idle(&self) -> (idle: bool)
        ensures
            idle == self@.is_idle(),
    {
        self.source.is_none()
    }

    /// The number of completion signals not yet collected.
    pub fn completions(&self) -> (completions: u64)
        ensures
            completions == self@.completions,
    {
        self.completions
    }

    /// Collects one completion signal, if one is there.
    pub fn take_completion(&mut self) -> (taken: bool)
        ensures
            taken == (old(self)@.completions > 0),
            taken ==> final(self)@ == (MultiplexerView {
                completions: (old(self)@.completions - 1) as u64,
                ..old(self)@
            }),
            !taken ==> final(self)@ == old(self)@,
    {
        if self.completions > 0 {
            self.completions = self.completions - 1;
            true
        } else {
            false
        }
    }

    /// Applies the switch command that waits, if any.
    pub fn apply_switch(&mut self)
        ensures
            final(self)@ == old(self)@.apply(),
    {
        let pending = self.pending.take();
        match pending {
            Some(command) => {
                self.source = command;
            },
            None => {},
        }
    }

    /// Drops the source on air and signals one completion.
    fn complete(&mut self)
        ensures
            final(self)@ == old(self)@.complete(),
    {
        self.source = None;
        if self.completions < u64::MAX {
            self.completions = self.completions + 1;
        }
    }

    /// Decides what follows the answer of the source on air to a pull of
    /// `count` samples: samples are handed on; on exhaustion or an error the
    /// source is dropped, one completion is signalled and silence is handed
    /// on in its place.
    pub fn settle(&mut self, outcome: Result<Vec<Sample>, SourceError>, count: usize) -> (samples:
        Vec<Sample>)
        ensures
            final(self)@ == old(self)@.settle(outcome),
            samples@ == settled_samples(outcome, count),
    {
        match outcome {
            Ok(delivered) => {
                if delivered.len() > 0 {
                    delivered
                } else {
                    self.complete();
                    silence(count)
                }
            },
            Err(_) => {
                self.complete();
                silence(count)
            },
        }
    }

    /// Delivers `count` samples. The waiting switch command is applied
    /// first. While idle the result is silence. A source on air whose format
    /// differs from the multiplexer's is dropped like one that failed;
    /// otherwise the pull is forwarded to it and its answer settled.
    pub fn pull_samples(&mut self, count: usize) -> (samples: Vec<Sample>)
        ensures
            pulled(old(self)@, final(self)@, count, samples@),
    {
        self.apply_switch();
        let on_air = self.source.take();
        match on_air {
            None => silence(count),
            Some(source) => {
                let mut source = source;
                let format = source.format();
                if format != self.format {
                    self.source = Some(source);
                    self.settle(Err(SourceError::FormatMismatch), count)
                } else {
                    let outcome = source.pull(count);
                    self.source = Some(source);
                    self.settle(outcome, count)
                }
            },
        }
    }
}

impl<S: AudioSource> AudioSource for Multiplexer<S> {
    open spec fn spec_format(&self) -> AudioFormat {
        self@.format
    }

    fn format(&self) -> (format: AudioFormat) {
        self.format
    }

    /// Never fails and, for a positive `count`, never reports exhaustion:
    /// failures of the source on air end in silence.
    fn pull(&mut self, count: usize) -> (r: Result<Vec<Sample>, SourceError>)
        ensures
            r is Ok,
            pulled(old(self)@, final(self)@, count, r->Ok_0@),
    {
        Ok(self.pull_samples(count))
    }
}

} // verus!
