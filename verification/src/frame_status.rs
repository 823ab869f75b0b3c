//! The per-sample frame status: a small integer attached to each delivered
//! sample, decoded into a closed enumeration. An absent attachment decodes
//! to the documented default; an out-of-range integer is a decode error,
//! never a silent wrap.

use vstd::prelude::*;
use crate::errors::SampleDecodeError;

verus! {

/// The closed set of frame states the framework reports.
#[derive(Copy, Clone, PartialEq, Eq, Structural, Debug)]
pub enum SCFrameStatus {
    /// The system successfully generated a new frame.
    Complete,
    /// No new frame was generated because the display did not change.
    Idle,
    /// No new frame was generated because the display is blank.
    Blank,
    /// No new frame was generated because updates are suspended.
    Suspended,
    /// The first frame sent after the stream starts.
    Started,
    /// The frame is in a stopped state.
    Stopped,
}

impl SCFrameStatus {
    /// The integer the framework uses for this status.
    pub open spec fn spec_code(self) -> i32 {
        match self {
            SCFrameStatus::Complete => 0,
            SCFrameStatus::Idle => 1,
            SCFrameStatus::Blank => 2,
            SCFrameStatus::Suspended => 3,
            SCFrameStatus::Started => 4,
            SCFrameStatus::Stopped => 5,
        }
    }

    /// Total decoding of an integer code: each value of the defined range
    /// maps to its variant, and everything else is a decode error.
    pub open spec fn spec_from_code(code: i32) -> Result<SCFrameStatus, SampleDecodeError> {
        if code == 0 {
            Ok(SCFrameStatus::Complete)
        } else if code == 1 {
            Ok(SCFrameStatus::Idle)
        } else if code == 2 {
            Ok(SCFrameStatus::Blank)
        } else if code == 3 {
            Ok(SCFrameStatus::Suspended)
        } else if code == 4 {
            Ok(SCFrameStatus::Started)
        } else if code == 5 {
            Ok(SCFrameStatus::Stopped)
        } else {
            Err(SampleDecodeError::UnknownFrameStatus)
        }
    }

    /// The integer the framework uses for this status.
    pub fn code(self) -> (r: i32)
        ensures
            r == self.spec_code(),
    {
        match self {
            SCFrameStatus::Complete => 0,
            SCFrameStatus::Idle => 1,
            SCFrameStatus::Blank => 2,
            SCFrameStatus::Suspended => 3,
            SCFrameStatus::Started => 4,
            SCFrameStatus::Stopped => 5,
        }
    }

    /// Decodes an integer code, reporting an error for anything outside the
    /// defined range.
    pub fn from_code(code: i32) -> (r: Result<SCFrameStatus, SampleDecodeError>)
        ensures
            r == SCFrameStatus::spec_from_code(code),
    {
        if code == 0 {
            Ok(SCFrameStatus::Complete)
        } else if code == 1 {
            Ok(SCFrameStatus::Idle)
        } else if code == 2 {
            Ok(SCFrameStatus::Blank)
        } else if code == 3 {
            Ok(SCFrameStatus::Suspended)
        } else if code == 4 {
            Ok(SCFrameStatus::Started)
        } else if code == 5 {
            Ok(SCFrameStatus::Stopped)
        } else {
            Err(SampleDecodeError::UnknownFrameStatus)
        }
    }
}

/// The frame-status mapping is total over the defined range and rejects
/// everything outside it: a code decodes successfully exactly when it lies
/// in the defined range, the decoded variant maps back to the same code,
/// and every variant survives the round trip.
pub proof fn lemma_frame_status_total(code: i32, status: SCFrameStatus)
    ensures
        (0 <= code <= 5) <==> (SCFrameStatus::spec_from_code(code) matches Ok(_)),
        SCFrameStatus::spec_from_code(code) matches Ok(s) ==> s.spec_code() == code,
        SCFrameStatus::spec_from_code(status.spec_code()) == Ok::<
            SCFrameStatus,
            SampleDecodeError,
        >(status),
{
}

/// The decoded metadata attachment of one delivered sample. The foreign
/// attachment dictionary is read at the boundary; this type carries what the
/// lookup of the well-known status key produced, as a plain optional integer.
pub struct SCStreamFrameInfo {
    raw_status: Option<i32>,
}

impl SCStreamFrameInfo {
    /// The raw integer found under the status key, if the attachment held one.
    pub closed spec fn spec_raw_status(self) -> Option<i32> {
        self.raw_status
    }

    /// How a raw status lookup decodes: an absent attachment means the
    /// documented default, `Idle`; a present integer decodes by value.
    pub open spec fn spec_status(raw: Option<i32>) -> Result<SCFrameStatus, SampleDecodeError> {
        match raw {
            None => Ok(SCFrameStatus::Idle),
            Some(code) => SCFrameStatus::spec_from_code(code),
        }
    }

    /// A frame info with no status attachment.
    pub fn new() -> (r: Self)
        ensures
            r.spec_raw_status() is None,
    {
        SCStreamFrameInfo { raw_status: None }
    }

    /// A frame info holding the given raw status integer.
    pub fn from_raw_status(code: i32) -> (r: Self)
        ensures
            r.spec_raw_status() == Some(code),
    {
        SCStreamFrameInfo { raw_status: Some(code) }
    }

    /// Returns the status of this frame info: the documented default when the
    /// attachment is absent, the decoded variant when it is present and in
    /// range, and a decode error otherwise.
    pub fn status(&self) -> (r: Result<SCFrameStatus, SampleDecodeError>)
        ensures
            r == SCStreamFrameInfo::spec_status(self.spec_raw_status()),
    {
        match self.raw_status {
            None => Ok(SCFrameStatus::Idle),
            Some(code) => SCFrameStatus::from_code(code),
        }
    }
}

} // verus!
