//! Failures of elaboration.

use vstd::prelude::*;

use crate::abi::traits::{LeanModel, TryFromLean};
use crate::error::LeanResult;
use crate::runtime::obj::Obj;

verus! {

/// Why a source was not elaborated.
#[derive(Debug)]
pub enum LeanElabFailure {
    /// Lean's own account: an `ElabFailure` object with its diagnostics.
    Reported(Obj),
    /// An account that the host gives where Lean was not asked.
    Synthetic {
        /// What went wrong.
        message: String,
        /// Name of the source.
        file: String,
    },
}

/// Mathematical value of a [`LeanElabFailure`].
pub enum LeanElabFailureView {
    Reported(Obj),
    Synthetic { message: Seq<char>, file: Seq<char> },
}

impl LeanElabFailure {
    /// Gives an account where Lean was not asked.
    pub fn synthetic(message: String, file: String) -> (r: LeanElabFailure)
        ensures
            r.model() == (LeanElabFailureView::Synthetic { message: message@, file: file@ }),
    {
        LeanElabFailure::Synthetic { message, file }
    }
}

impl LeanModel for LeanElabFailure {
    type Model = LeanElabFailureView;

    open spec fn model(&self) -> LeanElabFailureView {
        match *self {
            LeanElabFailure::Reported(obj) => LeanElabFailureView::Reported(obj),
            LeanElabFailure::Synthetic { message, file } => LeanElabFailureView::Synthetic {
                message: message@,
                file: file@,
            },
        }
    }
}

impl TryFromLean for LeanElabFailure {
    open spec fn decoded(obj: Obj) -> Result<LeanElabFailureView, Seq<char>> {
        Ok(LeanElabFailureView::Reported(obj))
    }

    fn try_from_lean(obj: Obj) -> (r: LeanResult<LeanElabFailure>) {
        Ok(LeanElabFailure::Reported(obj))
    }
}

/// A failure that Lean reports is the object it reports; one that the host accounts
/// for is its message and its source.
pub proof fn failures_are_what_was_reported(obj: Obj, message: String, file: String)
    ensures
        <LeanElabFailure as TryFromLean>::decoded(obj) == Ok::<LeanElabFailureView, Seq<char>>(
            LeanElabFailureView::Reported(obj),
        ),
        LeanElabFailure::Reported(obj).model() == LeanElabFailureView::Reported(obj),
        (LeanElabFailure::Synthetic { message, file }).model() == (LeanElabFailureView::Synthetic {
            message: message@,
            file: file@,
        }),
{
}

} // verus!
