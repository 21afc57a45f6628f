//! Verdicts of Lean's kernel.

use vstd::prelude::*;
use vstd::string::*;

use crate::abi::structure::{
    ctor_tag, ctor_tag_of, sum_tag_of, sum_tags_have_two_forms, view,
};
use crate::abi::traits::{LeanModel, TryFromLean, conversion_error};
use crate::error::LeanResult;
use crate::host::elaboration::failure::{LeanElabFailure, LeanElabFailureView};
use crate::host::evidence::handle::LeanEvidence;
use crate::host::meta::response::{only_field, only_fields_are_taken, take_only_field};
use crate::runtime::obj::Obj;
use crate::text::{cat2, decimal, decimal_string};

verus! {

/// How the kernel judged a declaration.
#[non_exhaustive]
#[derive(Copy, Clone, Debug, PartialEq, Eq, Structural)]
pub enum EvidenceStatus {
    /// The kernel accepted it.
    Checked,
    /// The kernel rejected it.
    Rejected,
    /// The kernel could not be asked.
    Unavailable,
    /// The declaration is of a kind that is not supported.
    Unsupported,
}

/// The status with the given constructor index, or why there is none.
pub open spec fn status_of_tag(tag: u8) -> Result<EvidenceStatus, Seq<char>> {
    match tag {
        0 => Ok(EvidenceStatus::Checked),
        1 => Ok(EvidenceStatus::Rejected),
        2 => Ok(EvidenceStatus::Unavailable),
        3 => Ok(EvidenceStatus::Unsupported),
        _ => Err(
            "expected Lean EvidenceStatus ctor (tag 0..=3), found tag "@ + decimal(tag as nat),
        ),
    }
}

impl LeanModel for EvidenceStatus {
    type Model = EvidenceStatus;

    open spec fn model(&self) -> EvidenceStatus {
        *self
    }
}

impl TryFromLean for EvidenceStatus {
    open spec fn decoded(obj: Obj) -> Result<EvidenceStatus, Seq<char>> {
        match sum_tag_of(obj) {
            Ok(tag) => status_of_tag(tag),
            Err(message) => Err(message),
        }
    }

    fn try_from_lean(obj: Obj) -> (r: LeanResult<EvidenceStatus>) {
        match view(&obj).sum_tag() {
            Ok(0) => Ok(EvidenceStatus::Checked),
            Ok(1) => Ok(EvidenceStatus::Rejected),
            Ok(2) => Ok(EvidenceStatus::Unavailable),
            Ok(3) => Ok(EvidenceStatus::Unsupported),
            Ok(other) => Err(
                conversion_error(
                    cat2(
                        "expected Lean EvidenceStatus ctor (tag 0..=3), found tag ",
                        decimal_string(other as u64).as_str(),
                    ),
                ),
            ),
            Err(err) => Err(err),
        }
    }
}

/// The kernel's judgement with what belongs to it.
#[non_exhaustive]
#[derive(Debug)]
pub enum LeanKernelOutcome {
    /// The kernel accepted the declaration; this is the evidence.
    Checked(LeanEvidence),
    /// The kernel rejected the declaration.
    Rejected(LeanElabFailure),
    /// The kernel could not be asked.
    Unavailable(LeanElabFailure),
    /// The declaration is of a kind that is not supported.
    Unsupported(LeanElabFailure),
}

/// Mathematical value of a [`LeanKernelOutcome`].
pub enum LeanKernelOutcomeView {
    Checked(Obj),
    Rejected(LeanElabFailureView),
    Unavailable(LeanElabFailureView),
    Unsupported(LeanElabFailureView),
}

impl LeanKernelOutcome {
    /// How the kernel judged the declaration.
    pub open spec fn spec_status(self) -> EvidenceStatus {
        match self {
            LeanKernelOutcome::Checked(_) => EvidenceStatus::Checked,
            LeanKernelOutcome::Rejected(_) => EvidenceStatus::Rejected,
            LeanKernelOutcome::Unavailable(_) => EvidenceStatus::Unavailable,
            LeanKernelOutcome::Unsupported(_) => EvidenceStatus::Unsupported,
        }
    }

    /// How the kernel judged the declaration.
    #[must_use]
    pub fn status(&self) -> (r: EvidenceStatus)
        ensures
            r == self.spec_status(),
    {
        match self {
            LeanKernelOutcome::Checked(_) => EvidenceStatus::Checked,
            LeanKernelOutcome::Rejected(_) => EvidenceStatus::Rejected,
            LeanKernelOutcome::Unavailable(_) => EvidenceStatus::Unavailable,
            LeanKernelOutcome::Unsupported(_) => EvidenceStatus::Unsupported,
        }
    }
}

impl LeanModel for LeanKernelOutcome {
    type Model = LeanKernelOutcomeView;

    open spec fn model(&self) -> LeanKernelOutcomeView {
        match *self {
            LeanKernelOutcome::Checked(evidence) => LeanKernelOutcomeView::Checked(
                evidence.model(),
            ),
            LeanKernelOutcome::Rejected(failure) => LeanKernelOutcomeView::Rejected(
                failure.model(),
            ),
            LeanKernelOutcome::Unavailable(failure) => LeanKernelOutcomeView::Unavailable(
                failure.model(),
            ),
            LeanKernelOutcome::Unsupported(failure) => LeanKernelOutcomeView::Unsupported(
                failure.model(),
            ),
        }
    }
}

/// The model of the judgement that `obj` encodes, or why it encodes none.
pub open spec fn decoded_outcome(obj: Obj) -> Result<LeanKernelOutcomeView, Seq<char>> {
    match ctor_tag_of(obj) {
        Err(message) => Err(message),
        Ok(tag) => if tag == 0 {
            match only_field(obj, 0, "KernelOutcome.checked"@) {
                Ok(payload) => match LeanEvidence::decoded(payload) {
                    Ok(model) => Ok(LeanKernelOutcomeView::Checked(model)),
                    Err(message) => Err(message),
                },
                Err(message) => Err(message),
            }
        } else if tag == 1 {
            match only_field(obj, 1, "KernelOutcome.rejected"@) {
                Ok(payload) => match LeanElabFailure::decoded(payload) {
                    Ok(model) => Ok(LeanKernelOutcomeView::Rejected(model)),
                    Err(message) => Err(message),
                },
                Err(message) => Err(message),
            }
        } else if tag == 2 {
            match only_field(obj, 2, "KernelOutcome.unavailable"@) {
                Ok(payload) => match LeanElabFailure::decoded(payload) {
                    Ok(model) => Ok(LeanKernelOutcomeView::Unavailable(model)),
                    Err(message) => Err(message),
                },
                Err(message) => Err(message),
            }
        } else if tag == 3 {
            match only_field(obj, 3, "KernelOutcome.unsupported"@) {
                Ok(payload) => match LeanElabFailure::decoded(payload) {
                    Ok(model) => Ok(LeanKernelOutcomeView::Unsupported(model)),
                    Err(message) => Err(message),
                },
                Err(message) => Err(message),
            }
        } else {
            Err("expected Lean KernelOutcome ctor (tag 0..=3), found tag "@ + decimal(tag as nat))
        },
    }
}

impl TryFromLean for LeanKernelOutcome {
    open spec fn decoded(obj: Obj) -> Result<LeanKernelOutcomeView, Seq<char>> {
        decoded_outcome(obj)
    }

    fn try_from_lean(obj: Obj) -> (r: LeanResult<LeanKernelOutcome>) {
        match ctor_tag(&obj) {
            Err(err) => Err(err),
            Ok(0) => match take_only_field(obj, 0, "KernelOutcome.checked") {
                Ok(payload) => match LeanEvidence::try_from_lean(payload) {
                    Ok(value) => Ok(LeanKernelOutcome::Checked(value)),
                    Err(err) => Err(err),
                },
                Err(err) => Err(err),
            },
            Ok(1) => match take_only_field(obj, 1, "KernelOutcome.rejected") {
                Ok(payload) => match LeanElabFailure::try_from_lean(payload) {
                    Ok(value) => Ok(LeanKernelOutcome::Rejected(value)),
                    Err(err) => Err(err),
                },
                Err(err) => Err(err),
            },
            Ok(2) => match take_only_field(obj, 2, "KernelOutcome.unavailable") {
                Ok(payload) => match LeanElabFailure::try_from_lean(payload) {
                    Ok(value) => Ok(LeanKernelOutcome::Unavailable(value)),
                    Err(err) => Err(err),
                },
                Err(err) => Err(err),
            },
            Ok(3) => match take_only_field(obj, 3, "KernelOutcome.unsupported") {
                Ok(payload) => match LeanElabFailure::try_from_lean(payload) {
                    Ok(value) => Ok(LeanKernelOutcome::Unsupported(value)),
                    Err(err) => Err(err),
                },
                Err(err) => Err(err),
            },
            Ok(other) => Err(
                conversion_error(
                    cat2(
                        "expected Lean KernelOutcome ctor (tag 0..=3), found tag ",
                        decimal_string(other as u64).as_str(),
                    ),
                ),
            ),
        }
    }
}

/// A status is a constructor in either form, and goes by its tag: zero is checked, one
/// rejected, two unavailable, three unsupported. A greater tag, and everything else, is
/// no status.
pub proof fn statuses_go_by_their_tag(obj: Obj)
    ensures
        <EvidenceStatus as TryFromLean>::decoded(obj) is Ok <==> (obj matches Obj::Scalar(p) && p
            <= 3) || (obj matches Obj::Ctor(ctor) && ctor.tag <= 3),
        <EvidenceStatus as TryFromLean>::decoded(obj) matches Ok(status) ==> {
            let tag = if obj is Scalar {
                obj->Scalar_0 as int
            } else {
                obj->Ctor_0.tag as int
            };
            &&& status is Checked <==> tag == 0
            &&& status is Rejected <==> tag == 1
            &&& status is Unavailable <==> tag == 2
            &&& status is Unsupported <==> tag == 3
        },
{
    sum_tags_have_two_forms(obj);
}

/// A judgement is a constructor with one field, and goes by its tag: zero is checked
/// with the field as evidence, one rejected, two unavailable, three unsupported, each
/// with the field as Lean's account. Everything else is no judgement.
pub proof fn judgements_go_by_their_tag(obj: Obj)
    ensures
        <LeanKernelOutcome as TryFromLean>::decoded(obj) is Ok <==> (obj matches Obj::Ctor(ctor)
            && ctor.objects@.len() == 1 && ctor.tag <= 3),
        <LeanKernelOutcome as TryFromLean>::decoded(obj) matches Ok(outcome) ==> {
            let field = obj->Ctor_0.objects@[0];
            match obj->Ctor_0.tag {
                0 => outcome == LeanKernelOutcomeView::Checked(field),
                1 => outcome == LeanKernelOutcomeView::Rejected(
                    LeanElabFailureView::Reported(field),
                ),
                2 => outcome == LeanKernelOutcomeView::Unavailable(
                    LeanElabFailureView::Reported(field),
                ),
                _ => outcome == LeanKernelOutcomeView::Unsupported(
                    LeanElabFailureView::Reported(field),
                ),
            }
        },
{
    only_fields_are_taken(obj, 0, "KernelOutcome.checked"@);
    only_fields_are_taken(obj, 1, "KernelOutcome.rejected"@);
    only_fields_are_taken(obj, 2, "KernelOutcome.unavailable"@);
    only_fields_are_taken(obj, 3, "KernelOutcome.unsupported"@);
}

/// The status of a judgement is that of its variant, and its model keeps what it
/// carries; a status is its own model.
pub proof fn judgements_tell_their_status(
    status: EvidenceStatus,
    evidence: LeanEvidence,
    failure: LeanElabFailure,
)
    ensures
        status.model() == status,
        LeanKernelOutcome::Checked(evidence).spec_status() is Checked,
        LeanKernelOutcome::Rejected(failure).spec_status() is Rejected,
        LeanKernelOutcome::Unavailable(failure).spec_status() is Unavailable,
        LeanKernelOutcome::Unsupported(failure).spec_status() is Unsupported,
        LeanKernelOutcome::Checked(evidence).model() == LeanKernelOutcomeView::Checked(
            evidence.model(),
        ),
        LeanKernelOutcome::Rejected(failure).model() == LeanKernelOutcomeView::Rejected(
            failure.model(),
        ),
        LeanKernelOutcome::Unavailable(failure).model() == LeanKernelOutcomeView::Unavailable(
            failure.model(),
        ),
        LeanKernelOutcome::Unsupported(failure).model() == LeanKernelOutcomeView::Unsupported(
            failure.model(),
        ),
{
}

} // verus!
