//! The stream error path: the interface an application implements to hear
//! that a stream stopped, and the wrapper that adapts it to the shape the
//! foreign delegate calls.

use vstd::prelude::*;

verus! {

/// The low-level error callback the foreign delegate invokes. The ghost
/// counter abstracts the implementation's state as the number of errors it
/// has handled; each invocation accounts for exactly one error.
pub trait UnsafeSCStreamError: Sized {
    /// How many errors this handler has handled.
    spec fn errors_handled(&self) -> nat;

    /// Handles one stream error.
    fn handle_error(&mut self)
        ensures
            final(self).errors_handled() == old(self).errors_handled() + 1,
    ;
}

/// The application-facing error interface.
pub trait StreamErrorHandler: Sized {
    /// How many errors this handler has seen.
    spec fn errors_seen(&self) -> nat;

    /// Called once per stream error.
    fn on_error(&mut self)
        ensures
            final(self).errors_seen() == old(self).errors_seen() + 1,
    ;
}

/// Adapts an application error handler to the low-level callback shape:
/// every invocation of the wrapper forwards to the wrapped handler, one for
/// one.
pub struct StreamErrorHandlerWrapper<T>(T);

impl<T: StreamErrorHandler> StreamErrorHandlerWrapper<T> {
    /// The wrapped handler.
    pub closed spec fn inner(self) -> T {
        self.0
    }

    pub fn new(error_handler: T) -> (r: Self)
        ensures
            r.inner() == error_handler,
    {
        StreamErrorHandlerWrapper(error_handler)
    }

    /// Hands the wrapped handler back, for instance at stream teardown.
    pub fn into_inner(self) -> (r: T)
        ensures
            r == self.inner(),
    {
        self.0
    }
}

/// An error handler that keeps one mark per error it is shown: the
/// library's own reference implementation of the error interface, and the
/// one the test suite inspects.
pub struct RecordingErrorHandler {
    marks: Vec<bool>,
}

impl RecordingErrorHandler {
    /// A handler that has seen no errors.
    pub fn new() -> (r: RecordingErrorHandler)
        ensures
            r.errors_seen() == 0,
    {
        RecordingErrorHandler { marks: Vec::new() }
    }

    /// How many errors this handler has seen.
    pub fn error_count(&self) -> (n: usize)
        ensures
            n == self.errors_seen(),
    {
        self.marks.len()
    }
}

impl StreamErrorHandler for RecordingErrorHandler {
    closed spec fn errors_seen(&self) -> nat {
        self.marks@.len()
    }

    fn on_error(&mut self) {
        self.marks.push(true);
    }
}

impl<T: StreamErrorHandler> UnsafeSCStreamError for StreamErrorHandlerWrapper<T> {
    closed spec fn errors_handled(&self) -> nat {
        self.0.errors_seen()
    }

    fn handle_error(&mut self) {
        self.0.on_error();
    }
}

} // verus!
