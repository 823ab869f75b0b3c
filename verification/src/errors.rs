//! Error values surfaced by the library.
//!
//! Foreign-call failures carry a domain string and a numeric code; decode
//! failures and dispatch failures are closed enumerations, local to one
//! sample, and never abort a stream.

use vstd::prelude::*;
use vstd::string::StringExecFns;

verus! {

/// The code that marks an error raised by this binding itself rather than
/// relayed from the capture framework.
pub const SC_ERROR_CODE: isize = 1337;

/// An error reported by the capture framework or by the bridge around it.
#[derive(Debug)]
pub struct CaptureError {
    pub domain: String,
    pub code: isize,
}

/// Builds an error in the style of the host's error objects.
pub fn create_cf_error(domain: &str, code: isize) -> (r: CaptureError)
    ensures
        r.domain@ == domain@,
        r.code == code,
{
    CaptureError { domain: String::from_str(domain), code }
}

/// Builds an error raised by the binding itself, under its fixed code.
pub fn create_sc_error(message: &str) -> (r: CaptureError)
    ensures
        r.domain@ == message@,
        r.code == SC_ERROR_CODE,
{
    CaptureError { domain: String::from_str(message), code: SC_ERROR_CODE }
}

/// Why decoding one delivered sample failed. A decode failure is recoverable
/// at the call site that requested the decode and must not take the stream
/// down with it.
#[derive(Copy, Clone, PartialEq, Eq, Structural, Debug)]
pub enum SampleDecodeError {
    /// The status attachment held an integer outside the closed enumeration.
    UnknownFrameStatus,
    /// The channel discriminator was neither of the two defined values.
    UnknownOutputType,
    /// The buffer-list header block did not have the fixed mirrored size.
    WrongHeaderLength,
    /// The buffer-list header announced more descriptors than the fixed
    /// capacity admits.
    TooManyBuffers,
    /// A descriptor pointed outside the payload block it was delivered with.
    BufferOutOfRange,
}

/// Why routing a sample to a registered handler failed.
#[derive(Copy, Clone, PartialEq, Eq, Structural, Debug)]
pub enum DispatchError {
    /// The identifier was not present in the registry: a dispatch after
    /// teardown, which indicates a lifecycle bug in the caller.
    UnknownHandler,
}

/// Everything that can go wrong between receiving a foreign invocation and
/// the handler seeing the decoded sample.
#[derive(Copy, Clone, PartialEq, Eq, Structural, Debug)]
pub enum StreamEventError {
    Decode(SampleDecodeError),
    Dispatch(DispatchError),
}

} // verus!
