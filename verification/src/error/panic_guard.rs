//! Containment of panics in callbacks.

use vstd::prelude::*;

use crate::error::{LeanError, LeanResult, PanicPayload, callback_panic_error};

verus! {

/// How the run of a callback ended.
#[derive(Debug)]
pub enum CallbackRun<R> {
    /// The callback returned.
    Returned(LeanResult<R>),
    /// The callback panicked.
    Panicked(PanicPayload),
}

/// Turns a contained panic into an error; what the callback returned is passed
/// on as it is.
pub fn catch_callback_panic<R>(run: CallbackRun<R>) -> (r: LeanResult<R>)
    ensures
        match run {
            CallbackRun::Returned(outcome) => r == outcome,
            CallbackRun::Panicked(payload) => r matches Err(err) && err@ == callback_panic_error(
                payload.rendered(),
            ),
        },
{
    match run {
        CallbackRun::Returned(outcome) => outcome,
        CallbackRun::Panicked(payload) => Err(LeanError::callback_panic(&payload)),
    }
}

} // verus!
