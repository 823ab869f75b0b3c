//! The stream: owner of the handle registry its trampolines resolve
//! through, and the decision core of the capture control path.
//!
//! The foreign stream object, its filter and its configuration stay at the
//! boundary; what is verified here is what the binding decides: how a
//! foreign invocation turns into a decoded sample and reaches exactly the
//! right handler, and how a completion outcome turns into the result of a
//! blocking start or stop. Because the stream owns the registry, every
//! registration is dropped with the stream at the latest: teardown is
//! structural, not an optional call.

use vstd::prelude::*;
use crate::audio::{spec_decode_buffer_list, decode_audio_buffer_list, CopiedAudioBuffer};
use crate::completion::void_completion_result;
use crate::errors::{CaptureError, SampleDecodeError, StreamEventError};
use crate::frame_status::{SCFrameStatus, SCStreamFrameInfo};
use crate::output::{SCStreamOutputTrait, SCStreamOutputType};
use crate::registry::{HandleRegistry, OpaqueIdentifier};
use crate::sample::{CMSampleBuffer, SampleView};
use crate::time::CMTime;

verus! {

/// How one foreign invocation decodes into the sample a handler is shown:
/// the status attachment and the buffer list must both decode, and the
/// first failure is the whole invocation's failure.
pub open spec fn spec_decoded_sample(
    raw_status: Option<i32>,
    presentation_timestamp: CMTime,
    header: Seq<u8>,
    arena: Seq<u8>,
) -> Result<SampleView, SampleDecodeError> {
    match SCStreamFrameInfo::spec_status(raw_status) {
        Err(e) => Err(e),
        Ok(frame_status) => match spec_decode_buffer_list(header, arena) {
            Err(e) => Err(e),
            Ok(audio_buffers) => Ok(
                SampleView { frame_status, presentation_timestamp, audio_buffers },
            ),
        },
    }
}

/// A capture stream: the registry of its output handlers and its running
/// state.
pub struct SCStream<T> {
    registry: HandleRegistry<T>,
    running: bool,
}

impl<T: SCStreamOutputTrait> SCStream<T> {
    /// The stream's handler registry.
    pub closed spec fn spec_registry(self) -> HandleRegistry<T> {
        self.registry
    }

    /// Whether a start has succeeded and no stop has since.
    pub closed spec fn is_running(self) -> bool {
        self.running
    }

    pub open spec fn wf(self) -> bool {
        self.spec_registry().wf()
    }

    /// Whether a handler is registered under this identifier.
    pub open spec fn contains_handler(self, raw: u64) -> bool {
        self.spec_registry().contains_id(raw)
    }

    /// The handler registered under a live identifier.
    pub open spec fn handler_of(self, raw: u64) -> T {
        self.spec_registry().handler_of(raw)
    }

    /// A stream with no handlers, not running.
    pub fn new() -> (r: SCStream<T>)
        ensures
            r.wf(),
            !r.is_running(),
            forall|raw: u64| !(#[trigger] r.contains_handler(raw)),
            r.spec_registry().next_raw_spec() == 0,
    {
        SCStream { registry: HandleRegistry::new(), running: false }
    }

    /// Whether the stream is running.
    pub fn running(&self) -> (r: bool)
        ensures
            r == self.is_running(),
    {
        self.running
    }

    /// How many handlers are registered.
    pub fn handler_count(&self) -> (n: usize)
        ensures
            n == self.spec_registry().ids_seq().len(),
    {
        self.registry.len()
    }

    /// Looks at the handler registered under an identifier.
    pub fn handler(&self, id: OpaqueIdentifier) -> (r: Option<&T>)
        requires
            self.wf(),
        ensures
            r matches Some(h) ==> self.contains_handler(id.spec_raw()) && *h == self.handler_of(
                id.spec_raw(),
            ),
            r is None ==> !self.contains_handler(id.spec_raw()),
    {
        self.registry.get(id)
    }

    /// Attaches an output handler for the given channel and returns the
    /// identifier its trampoline will carry. The channel choice configures
    /// which foreign channel invokes the trampoline, which is the
    /// boundary's affair; the registration itself is the same for both.
    pub fn add_output_handler(&mut self, output_trait: T, of_type: SCStreamOutputType) -> (r:
        OpaqueIdentifier)
        requires
            old(self).wf(),
            old(self).spec_registry().next_raw_spec() < u64::MAX,
        ensures
            final(self).wf(),
            !old(self).contains_handler(r.spec_raw()),
            final(self).contains_handler(r.spec_raw()),
            final(self).handler_of(r.spec_raw()) == output_trait,
            forall|raw: u64|
                raw != r.spec_raw() ==> #[trigger] final(self).contains_handler(raw)
                    == old(self).contains_handler(raw),
            forall|raw: u64|
                old(self).contains_handler(raw) ==> #[trigger] final(self).handler_of(raw)
                    == old(self).handler_of(raw),
            final(self).is_running() == old(self).is_running(),
    {
        self.registry.register(output_trait)
    }

    /// Detaches the handler under this identifier, reporting whether one
    /// was attached. Idempotent: removing an identifier twice, or one that
    /// was never attached, is a no-op.
    pub fn remove_output_handler(&mut self, id: OpaqueIdentifier, of_type: SCStreamOutputType)
        -> (removed: bool)
        requires
            old(self).wf(),
        ensures
            final(self).wf(),
            removed == old(self).contains_handler(id.spec_raw()),
            !final(self).contains_handler(id.spec_raw()),
            forall|raw: u64|
                raw != id.spec_raw() ==> #[trigger] final(self).contains_handler(raw)
                    == old(self).contains_handler(raw),
            forall|raw: u64|
                raw != id.spec_raw() && old(self).contains_handler(raw)
                    ==> #[trigger] final(self).handler_of(raw) == old(self).handler_of(raw),
            final(self).is_running() == old(self).is_running(),
    {
        let removed: bool = match self.registry.get(id) {
            Some(_) => true,
            None => false,
        };
        self.registry.unregister(id);
        removed
    }

    /// The trampoline's whole job, after the boundary has copied the
    /// invocation out of foreign memory: decode the status attachment and
    /// the buffer list, and route the decoded sample to the handler the
    /// identifier names.
    ///
    /// A decode failure or an unknown identifier is reported to the caller
    /// and leaves every handler untouched; it never takes the stream down.
    /// On success the named handler — and no other — observes exactly the
    /// decoded sample.
    pub fn handle_sample(
        &mut self,
        id: OpaqueIdentifier,
        raw_status: Option<i32>,
        presentation_timestamp: CMTime,
        header: &[u8],
        arena: &[u8],
        of_type: SCStreamOutputType,
    ) -> (r: Result<(), StreamEventError>)
        requires
            old(self).wf(),
        ensures
            final(self).wf(),
            final(self).is_running() == old(self).is_running(),
            forall|raw: u64|
                #[trigger] final(self).contains_handler(raw) == old(self).contains_handler(raw),
            spec_decoded_sample(raw_status, presentation_timestamp, header@, arena@) matches Err(e)
                ==> r == Err::<(), StreamEventError>(StreamEventError::Decode(e))
                && final(self).spec_registry().handlers_seq()
                == old(self).spec_registry().handlers_seq(),
            spec_decoded_sample(raw_status, presentation_timestamp, header@, arena@) matches Ok(v)
                ==> {
                &&& !old(self).contains_handler(id.spec_raw()) ==> r == Err::<
                    (),
                    StreamEventError,
                >(StreamEventError::Dispatch(crate::errors::DispatchError::UnknownHandler))
                    && final(self).spec_registry().handlers_seq()
                    == old(self).spec_registry().handlers_seq()
                &&& old(self).contains_handler(id.spec_raw()) ==> {
                    &&& r matches Ok(())
                    &&& final(self).handler_of(id.spec_raw()).observed() == old(self).handler_of(
                        id.spec_raw(),
                    ).observed().push((v, of_type))
                    &&& forall|raw: u64|
                        raw != id.spec_raw() && old(self).contains_handler(raw) ==> #[trigger]
                        final(self).handler_of(raw) == old(self).handler_of(raw)
                }
            },
    {
        let info: SCStreamFrameInfo = match raw_status {
            None => SCStreamFrameInfo::new(),
            Some(code) => SCStreamFrameInfo::from_raw_status(code),
        };
        let frame_status: SCFrameStatus = match info.status() {
            Ok(s) => s,
            Err(e) => {
                return Err(StreamEventError::Decode(e));
            },
        };
        let audio_buffers: Vec<CopiedAudioBuffer> = match decode_audio_buffer_list(header, arena) {
            Ok(b) => b,
            Err(e) => {
                return Err(StreamEventError::Decode(e));
            },
        };
        let sample: CMSampleBuffer = CMSampleBuffer::new(
            frame_status,
            presentation_timestamp,
            audio_buffers,
        );
        match self.registry.dispatch(id, sample, of_type) {
            Ok(()) => Ok(()),
            Err(e) => Err(StreamEventError::Dispatch(e)),
        }
    }

    /// The blocking start, after the boundary has run the asynchronous
    /// foreign call and handed back what its completion callback reported:
    /// an error is returned to the caller unchanged and the stream is not
    /// considered running; success marks it running.
    pub fn start_capture(&mut self, completion_error: Option<CaptureError>) -> (r: Result<
        (),
        CaptureError,
    >)
        requires
            old(self).wf(),
        ensures
            final(self).wf(),
            final(self).spec_registry() == old(self).spec_registry(),
            completion_error matches Some(e) ==> r == Err::<(), CaptureError>(e)
                && final(self).is_running() == old(self).is_running(),
            completion_error is None ==> r == Ok::<(), CaptureError>(())
                && final(self).is_running(),
    {
        match void_completion_result(completion_error) {
            Ok(()) => {
                self.running = true;
                Ok(())
            },
            Err(e) => Err(e),
        }
    }

    /// The blocking stop, the only supported way to end delivery: an error
    /// is returned unchanged and the running state keeps its value; success
    /// marks the stream stopped.
    pub fn stop_capture(&mut self, completion_error: Option<CaptureError>) -> (r: Result<
        (),
        CaptureError,
    >)
        requires
            old(self).wf(),
        ensures
            final(self).wf(),
            final(self).spec_registry() == old(self).spec_registry(),
            completion_error matches Some(e) ==> r == Err::<(), CaptureError>(e)
                && final(self).is_running() == old(self).is_running(),
            completion_error is None ==> r == Ok::<(), CaptureError>(())
                && !final(self).is_running(),
    {
        match void_completion_result(completion_error) {
            Ok(()) => {
                self.running = false;
                Ok(())
            },
            Err(e) => Err(e),
        }
    }
}

} // verus!
