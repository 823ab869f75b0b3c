//! The output side of a stream: the channel discriminator the runtime
//! passes with every delivered sample, and the handler interface the
//! application implements.

use vstd::prelude::*;
use vstd::string::StringExecFns;
use crate::errors::SampleDecodeError;
use crate::sample::{CMSampleBuffer, SampleView};

verus! {

/// Which channel of a stream a sample belongs to. The runtime hands this
/// across the boundary as a small integer.
#[derive(Copy, Clone, PartialEq, Eq, Structural, Debug)]
pub enum SCStreamOutputType {
    Screen,
    Audio,
}

impl SCStreamOutputType {
    /// The integer the runtime uses for this channel.
    pub open spec fn spec_raw(self) -> u8 {
        match self {
            SCStreamOutputType::Screen => 0,
            SCStreamOutputType::Audio => 1,
        }
    }

    /// Total decoding of the runtime's channel integer.
    pub open spec fn spec_from_raw(raw: u8) -> Option<SCStreamOutputType> {
        if raw == 0 {
            Some(SCStreamOutputType::Screen)
        } else if raw == 1 {
            Some(SCStreamOutputType::Audio)
        } else {
            None
        }
    }

    /// The integer the runtime uses for this channel.
    pub fn raw(self) -> (r: u8)
        ensures
            r == self.spec_raw(),
    {
        match self {
            SCStreamOutputType::Screen => 0,
            SCStreamOutputType::Audio => 1,
        }
    }

    /// The channel's name, as it reads in logs and error messages.
    pub fn name(&self) -> (r: String)
        ensures
            *self is Screen ==> r@ == "Screen"@,
            *self is Audio ==> r@ == "Audio"@,
    {
        match self {
            SCStreamOutputType::Screen => String::from_str("Screen"),
            SCStreamOutputType::Audio => String::from_str("Audio"),
        }
    }

    /// Decodes the runtime's channel integer; anything outside the two
    /// defined values is rejected rather than guessed at.
    pub fn from_raw(raw: u8) -> (r: Option<SCStreamOutputType>)
        ensures
            r == SCStreamOutputType::spec_from_raw(raw),
    {
        if raw == 0 {
            Some(SCStreamOutputType::Screen)
        } else if raw == 1 {
            Some(SCStreamOutputType::Audio)
        } else {
            None
        }
    }
}

/// Both channel values survive the trip through the runtime's integer, and
/// a decoded integer maps back to itself.
pub proof fn lemma_output_type_round_trip(t: SCStreamOutputType, raw: u8)
    ensures
        SCStreamOutputType::spec_from_raw(t.spec_raw()) == Some(t),
        SCStreamOutputType::spec_from_raw(raw) matches Some(t2) ==> t2.spec_raw() == raw,
{
}

/// What a stream output handler is: application-supplied logic the
/// trampoline forwards each decoded sample to. The ghost `observed`
/// sequence abstracts the handler's state as the samples it has been shown,
/// in order; each invocation appends exactly the sample it was given.
pub trait SCStreamOutputTrait: Sized {
    /// The samples this handler has been shown, each with its channel.
    spec fn observed(&self) -> Seq<(SampleView, SCStreamOutputType)>;

    /// Receives one decoded sample from the trampoline.
    fn did_output_sample_buffer(
        &mut self,
        sample_buffer: CMSampleBuffer,
        of_type: SCStreamOutputType,
    )
        ensures
            final(self).observed() == old(self).observed().push((sample_buffer@, of_type)),
    ;
}

/// Adapts a handler to the raw calling convention: the runtime hands the
/// channel over as a small integer, and the wrapper decodes it before the
/// handler sees anything. An undefined discriminator is a decode error and
/// reaches no handler.
pub struct StreamOutputWrapper<T>(T);

impl<T: SCStreamOutputTrait> StreamOutputWrapper<T> {
    /// The wrapped handler.
    pub closed spec fn inner(self) -> T {
        self.0
    }

    pub fn new(output: T) -> (r: Self)
        ensures
            r.inner() == output,
    {
        StreamOutputWrapper(output)
    }

    /// Hands the wrapped handler back.
    pub fn into_inner(self) -> (r: T)
        ensures
            r == self.inner(),
    {
        self.0
    }

    /// Receives one sample under the raw channel discriminator: a defined
    /// discriminator is decoded and the sample forwarded, one for one; an
    /// undefined one is reported and the handler stays untouched.
    pub fn did_output_sample_buffer(&mut self, sample_buffer: CMSampleBuffer, of_type: u8) -> (r:
        Result<(), SampleDecodeError>)
        ensures
            SCStreamOutputType::spec_from_raw(of_type) matches Some(t) ==> r == Ok::<
                (),
                SampleDecodeError,
            >(()) && final(self).inner().observed() == old(self).inner().observed().push(
                (sample_buffer@, t),
            ),
            SCStreamOutputType::spec_from_raw(of_type) is None ==> r == Err::<
                (),
                SampleDecodeError,
            >(SampleDecodeError::UnknownOutputType) && final(self).inner() == old(self).inner(),
    {
        match SCStreamOutputType::from_raw(of_type) {
            Some(t) => {
                self.0.did_output_sample_buffer(sample_buffer, t);
                Ok(())
            },
            None => Err(SampleDecodeError::UnknownOutputType),
        }
    }
}

/// A handler that keeps every sample it is shown: the library's own
/// reference implementation of the handler interface, and the one the test
/// suite inspects.
pub struct RecordingOutputHandler {
    pub events: Vec<(CMSampleBuffer, SCStreamOutputType)>,
}

impl RecordingOutputHandler {
    /// A handler that has seen nothing yet.
    pub fn new() -> (r: RecordingOutputHandler)
        ensures
            r.observed() =~= Seq::<(SampleView, SCStreamOutputType)>::empty(),
    {
        let r = RecordingOutputHandler { events: Vec::new() };
        proof {
            assert(r.observed() =~= Seq::<(SampleView, SCStreamOutputType)>::empty());
        }
        r
    }

    /// How many samples this handler has been shown.
    pub fn event_count(&self) -> (n: usize)
        ensures
            n == self.observed().len(),
    {
        self.events.len()
    }
}

impl SCStreamOutputTrait for RecordingOutputHandler {
    open spec fn observed(&self) -> Seq<(SampleView, SCStreamOutputType)> {
        self.events@.map_values(|e: (CMSampleBuffer, SCStreamOutputType)| (e.0@, e.1))
    }

    fn did_output_sample_buffer(
        &mut self,
        sample_buffer: CMSampleBuffer,
        of_type: SCStreamOutputType,
    ) {
        let ghost prior = self.observed();
        let ghost v = sample_buffer@;
        self.events.push((sample_buffer, of_type));
        proof {
            assert(self.observed() =~= prior.push((v, of_type)));
        }
    }
}

} // verus!
