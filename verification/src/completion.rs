//! The completion bridge: the decision core that turns the runtime's
//! "invoke a callback later with (result, error)" protocol into an ordinary
//! `Result`.
//!
//! The blocking half — a one-shot channel whose sender the foreign closure
//! owns until its single invocation — lives outside the library; what is
//! verified here is every decision that half makes: how one completion
//! outcome maps to a result, and that a pending completion resolves exactly
//! once before anyone reads it.

use vstd::prelude::*;
use vstd::pervasive::unreached;
use crate::errors::{create_sc_error, CaptureError, SC_ERROR_CODE};

verus! {

/// Maps one invocation of a completion callback to a result: a reported
/// error is returned unchanged, a payload without an error is success, and
/// a completion that carries neither is an error of the binding's own,
/// never an invented payload.
pub fn completion_result<T>(payload: Option<T>, error: Option<CaptureError>) -> (r: Result<
    T,
    CaptureError,
>)
    ensures
        error matches Some(e) ==> r == Err::<T, CaptureError>(e),
        error is None ==> (payload matches Some(p) ==> r == Ok::<T, CaptureError>(p)),
        error is None && payload is None ==> (r matches Err(e) && e.code == SC_ERROR_CODE
            && e.domain@ == "completion returned neither a value nor an error"@),
{
    match error {
        Some(e) => Err(e),
        None => match payload {
            Some(p) => Ok(p),
            None => Err(create_sc_error("completion returned neither a value nor an error")),
        },
    }
}

/// Maps one invocation of a void completion callback — start capture, stop
/// capture — to a result: the reported error unchanged, or success.
pub fn void_completion_result(error: Option<CaptureError>) -> (r: Result<(), CaptureError>)
    ensures
        error matches Some(e) ==> r == Err::<(), CaptureError>(e),
        error is None ==> r == Ok::<(), CaptureError>(()),
{
    match error {
        Some(e) => Err(e),
        None => Ok(()),
    }
}

/// One asynchronous call in flight: created pending, resolved by exactly
/// one invocation of the completion callback, and read only after that.
///
/// `fire` demands a pending completion, so a second invocation of the same
/// completion is a contract violation, not a lost update; `take` demands a
/// resolved one, so no caller observes a value before the callback has run.
pub struct PendingCompletion<T> {
    outcome: Option<Result<T, CaptureError>>,
}

impl<T> PendingCompletion<T> {
    /// The resolved outcome, once there is one.
    pub closed spec fn spec_outcome(self) -> Option<Result<T, CaptureError>> {
        self.outcome
    }

    /// Whether the completion callback has not run yet.
    pub open spec fn is_pending(self) -> bool {
        self.spec_outcome() is None
    }

    /// A completion whose callback has not run.
    pub fn new() -> (r: PendingCompletion<T>)
        ensures
            r.is_pending(),
    {
        PendingCompletion { outcome: None }
    }

    /// Whether the completion is still pending.
    pub fn pending(&self) -> (b: bool)
        ensures
            b == self.is_pending(),
    {
        self.outcome.is_none()
    }

    /// The completion callback's single invocation: resolves the completion
    /// with the mapped outcome. Demanding a pending completion is what
    /// "invoked exactly once" means to a verified caller.
    pub fn fire(&mut self, payload: Option<T>, error: Option<CaptureError>)
        requires
            old(self).is_pending(),
        ensures
            !final(self).is_pending(),
            error matches Some(e) ==> final(self).spec_outcome() == Some(
                Err::<T, CaptureError>(e),
            ),
            error is None ==> (payload matches Some(p) ==> final(self).spec_outcome() == Some(
                Ok::<T, CaptureError>(p),
            )),
            error is None && payload is None ==> (final(self).spec_outcome() matches Some(o) && o
                matches Err(e) && e.code == SC_ERROR_CODE),
    {
        let r = completion_result(payload, error);
        self.outcome = Some(r);
    }

    /// Hands the resolved outcome to the blocked caller. Demanding a
    /// resolved completion is what "the caller never observes a value
    /// before the callback has run" means to a verified caller.
    pub fn take(self) -> (r: Result<T, CaptureError>)
        requires
            !self.is_pending(),
        ensures
            Some(r) == self.spec_outcome(),
    {
        match self.outcome {
            Some(r) => r,
            None => unreached(),
        }
    }
}

} // verus!
