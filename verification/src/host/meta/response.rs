//! Responses of meta services.

use std::marker::PhantomData;
use vstd::prelude::*;
use vstd::string::*;

use crate::abi::structure::{
    constructors_go_by_tag_and_fields, ctor_shape_of, ctor_tag, ctor_tag_of, take_ctor_objects,
};
use crate::abi::traits::{LeanModel, TryFromLean, conversion_error, reads};
use crate::error::LeanResult;
use crate::host::elaboration::failure::{LeanElabFailure, LeanElabFailureView};
use crate::runtime::obj::Obj;
use crate::text::{cat2, decimal, decimal_string};

verus! {

/// What a call of a meta service came to.
#[non_exhaustive]
#[derive(Copy, Clone, Debug, PartialEq, Eq, Structural)]
pub enum MetaCallStatus {
    /// It gave a response.
    Completed,
    /// It failed.
    Failed,
    /// It ran out of its bounds.
    TimeoutOrHeartbeat,
    /// It is not offered.
    Unsupported,
}

/// The response of a meta service.
#[non_exhaustive]
#[derive(Debug)]
pub enum LeanMetaResponse<Resp> {
    /// The service gave a response.
    Completed(Resp),
    /// The service failed.
    Failed(LeanElabFailure),
    /// The service ran out of its bounds.
    TimeoutOrHeartbeat(LeanElabFailure),
    /// The service is not offered.
    Unsupported(LeanElabFailure),
}

/// Mathematical value of a [`LeanMetaResponse`].
pub enum LeanMetaResponseView<M> {
    Completed(M),
    Failed(LeanElabFailureView),
    TimeoutOrHeartbeat(LeanElabFailureView),
    Unsupported(LeanElabFailureView),
}

impl<Resp> LeanMetaResponse<Resp> {
    /// What the call came to.
    pub open spec fn spec_status(self) -> MetaCallStatus {
        match self {
            LeanMetaResponse::Completed(_) => MetaCallStatus::Completed,
            LeanMetaResponse::Failed(_) => MetaCallStatus::Failed,
            LeanMetaResponse::TimeoutOrHeartbeat(_) => MetaCallStatus::TimeoutOrHeartbeat,
            LeanMetaResponse::Unsupported(_) => MetaCallStatus::Unsupported,
        }
    }

    /// What the call came to.
    #[must_use]
    pub fn status(&self) -> (r: MetaCallStatus)
        ensures
            r == self.spec_status(),
    {
        match self {
            LeanMetaResponse::Completed(_) => MetaCallStatus::Completed,
            LeanMetaResponse::Failed(_) => MetaCallStatus::Failed,
            LeanMetaResponse::TimeoutOrHeartbeat(_) => MetaCallStatus::TimeoutOrHeartbeat,
            LeanMetaResponse::Unsupported(_) => MetaCallStatus::Unsupported,
        }
    }
}

impl<Resp: LeanModel> LeanModel for LeanMetaResponse<Resp> {
    type Model = LeanMetaResponseView<Resp::Model>;

    open spec fn model(&self) -> LeanMetaResponseView<Resp::Model> {
        match *self {
            LeanMetaResponse::Completed(value) => LeanMetaResponseView::Completed(value.model()),
            LeanMetaResponse::Failed(failure) => LeanMetaResponseView::Failed(failure.model()),
            LeanMetaResponse::TimeoutOrHeartbeat(failure) => {
                LeanMetaResponseView::TimeoutOrHeartbeat(failure.model())
            },
            LeanMetaResponse::Unsupported(failure) => LeanMetaResponseView::Unsupported(
                failure.model(),
            ),
        }
    }
}

/// The one field of a constructor with the given tag, or why there is none.
pub open spec fn only_field(obj: Obj, tag: u8, label: Seq<char>) -> Result<Obj, Seq<char>> {
    match ctor_shape_of(obj, tag, 1, label) {
        Ok(ctor) => Ok(ctor.objects@[0]),
        Err(message) => Err(message),
    }
}

/// Takes the one field of a constructor with the given tag.
pub fn take_only_field(obj: Obj, tag: u8, label: &str) -> (r: LeanResult<Obj>)
    ensures
        reads(r, only_field(obj, tag, label@)),
{
    match take_ctor_objects(obj, tag, 1, label) {
        Ok(mut fields) => Ok(fields.remove(0)),
        Err(err) => Err(err),
    }
}

/// The model of the response that `obj` encodes, or why it encodes none. The
/// constructor's index tells what the call came to.
pub open spec fn decoded_response<Resp: TryFromLean>(obj: Obj) -> Result<
    LeanMetaResponseView<Resp::Model>,
    Seq<char>,
> {
    match ctor_tag_of(obj) {
        Err(message) => Err(message),
        Ok(tag) => if tag == 0 {
            match only_field(obj, 0, "MetaResponse.ok"@) {
                Ok(payload) => match Resp::decoded(payload) {
                    Ok(model) => Ok(LeanMetaResponseView::Completed(model)),
                    Err(message) => Err(message),
                },
                Err(message) => Err(message),
            }
        } else if tag == 1 {
            match only_field(obj, 1, "MetaResponse.failed"@) {
                Ok(payload) => match LeanElabFailure::decoded(payload) {
                    Ok(model) => Ok(LeanMetaResponseView::Failed(model)),
                    Err(message) => Err(message),
                },
                Err(message) => Err(message),
            }
        } else if tag == 2 {
            match only_field(obj, 2, "MetaResponse.timeoutOrHeartbeat"@) {
                Ok(payload) => match LeanElabFailure::decoded(payload) {
                    Ok(model) => Ok(LeanMetaResponseView::TimeoutOrHeartbeat(model)),
                    Err(message) => Err(message),
                },
                Err(message) => Err(message),
            }
        } else if tag == 3 {
            match only_field(obj, 3, "MetaResponse.unsupported"@) {
                Ok(payload) => match LeanElabFailure::decoded(payload) {
                    Ok(model) => Ok(LeanMetaResponseView::Unsupported(model)),
                    Err(message) => Err(message),
                },
                Err(message) => Err(message),
            }
        } else {
            Err("expected Lean MetaResponse ctor (tag 0..=3), found tag "@ + decimal(tag as nat))
        },
    }
}

impl<Resp: TryFromLean> TryFromLean for LeanMetaResponse<Resp> {
    open spec fn decoded(obj: Obj) -> Result<LeanMetaResponseView<Resp::Model>, Seq<char>> {
        decoded_response::<Resp>(obj)
    }

    fn try_from_lean(obj: Obj) -> (r: LeanResult<LeanMetaResponse<Resp>>) {
        match ctor_tag(&obj) {
            Err(err) => Err(err),
            Ok(0) => match take_only_field(obj, 0, "MetaResponse.ok") {
                Ok(payload) => match Resp::try_from_lean(payload) {
                    Ok(value) => Ok(LeanMetaResponse::Completed(value)),
                    Err(err) => Err(err),
                },
                Err(err) => Err(err),
            },
            Ok(1) => match take_only_field(obj, 1, "MetaResponse.failed") {
                Ok(payload) => match LeanElabFailure::try_from_lean(payload) {
                    Ok(value) => Ok(LeanMetaResponse::Failed(value)),
                    Err(err) => Err(err),
                },
                Err(err) => Err(err),
            },
            Ok(2) => match take_only_field(obj, 2, "MetaResponse.timeoutOrHeartbeat") {
                Ok(payload) => match LeanElabFailure::try_from_lean(payload) {
                    Ok(value) => Ok(LeanMetaResponse::TimeoutOrHeartbeat(value)),
                    Err(err) => Err(err),
                },
                Err(err) => Err(err),
            },
            Ok(3) => match take_only_field(obj, 3, "MetaResponse.unsupported") {
                Ok(payload) => match LeanElabFailure::try_from_lean(payload) {
                    Ok(value) => Ok(LeanMetaResponse::Unsupported(value)),
                    Err(err) => Err(err),
                },
                Err(err) => Err(err),
            },
            Ok(other) => Err(
                conversion_error(
                    cat2(
                        "expected Lean MetaResponse ctor (tag 0..=3), found tag ",
                        decimal_string(other as u64).as_str(),
                    ),
                ),
            ),
        }
    }
}

/// A meta service that takes a `Req` and gives a `Resp`.
#[derive(Debug)]
pub struct LeanMetaService<Req, Resp> {
    name: String,
    request: PhantomData<Req>,
    response: PhantomData<Resp>,
}

impl<Req, Resp> LeanMetaService<Req, Resp> {
    /// The exported symbol of the service.
    pub closed spec fn spec_name(self) -> Seq<char> {
        self.name@
    }

    /// Names a service by its exported symbol.
    pub fn new(name: &str) -> (r: LeanMetaService<Req, Resp>)
        ensures
            r.spec_name() == name@,
    {
        LeanMetaService { name: name.to_owned(), request: PhantomData, response: PhantomData }
    }

    /// The exported symbol of the service.
    pub fn name(&self) -> (r: &str)
        ensures
            r@ == self.spec_name(),
    {
        self.name.as_str()
    }
}

/// A response is a constructor with one field, and goes by its tag: zero completed
/// with what the field is read as, one failed, two ran out of its bounds, three is not
/// offered, each with the field as Lean's account. Everything else is no response.
pub proof fn responses_go_by_their_tag<Resp: TryFromLean>(obj: Obj)
    ensures
        <LeanMetaResponse<Resp> as TryFromLean>::decoded(obj) is Ok <==> (obj matches Obj::Ctor(
            ctor,
        ) && ctor.objects@.len() == 1 && ctor.tag <= 3 && (ctor.tag == 0 ==> Resp::decoded(
            ctor.objects@[0],
        ) is Ok)),
        <LeanMetaResponse<Resp> as TryFromLean>::decoded(obj) matches Ok(response) ==> {
            let field = obj->Ctor_0.objects@[0];
            match obj->Ctor_0.tag {
                0 => response matches LeanMetaResponseView::Completed(model) && Resp::decoded(
                    field,
                ) == Ok::<Resp::Model, Seq<char>>(model),
                1 => response == LeanMetaResponseView::<Resp::Model>::Failed(
                    LeanElabFailureView::Reported(field),
                ),
                2 => response == LeanMetaResponseView::<Resp::Model>::TimeoutOrHeartbeat(
                    LeanElabFailureView::Reported(field),
                ),
                _ => response == LeanMetaResponseView::<Resp::Model>::Unsupported(
                    LeanElabFailureView::Reported(field),
                ),
            }
        },
{
    constructors_go_by_tag_and_fields(obj, 0, 1, "MetaResponse.ok"@);
    constructors_go_by_tag_and_fields(obj, 1, 1, "MetaResponse.failed"@);
    constructors_go_by_tag_and_fields(obj, 2, 1, "MetaResponse.timeoutOrHeartbeat"@);
    constructors_go_by_tag_and_fields(obj, 3, 1, "MetaResponse.unsupported"@);
}

/// The one field of a constructor is taken where tag and number of fields are right.
pub proof fn only_fields_are_taken(obj: Obj, tag: u8, label: Seq<char>)
    ensures
        only_field(obj, tag, label) is Ok <==> (obj matches Obj::Ctor(ctor) && ctor.tag == tag
            && ctor.objects@.len() == 1),
        only_field(obj, tag, label) matches Ok(field) ==> field == obj->Ctor_0.objects@[0],
{
    constructors_go_by_tag_and_fields(obj, tag, 1, label);
}

/// What a call came to is told by the response, and the model keeps what it carries.
pub proof fn responses_tell_what_the_call_came_to<Resp: LeanModel>(
    value: Resp,
    failure: LeanElabFailure,
)
    ensures
        LeanMetaResponse::Completed(value).spec_status() is Completed,
        LeanMetaResponse::<Resp>::Failed(failure).spec_status() is Failed,
        LeanMetaResponse::<Resp>::TimeoutOrHeartbeat(failure).spec_status() is TimeoutOrHeartbeat,
        LeanMetaResponse::<Resp>::Unsupported(failure).spec_status() is Unsupported,
        LeanMetaResponse::Completed(value).model() == LeanMetaResponseView::Completed(
            value.model(),
        ),
        LeanMetaResponse::<Resp>::Failed(failure).model() == LeanMetaResponseView::<
            Resp::Model,
        >::Failed(failure.model()),
        LeanMetaResponse::<Resp>::TimeoutOrHeartbeat(failure).model() == LeanMetaResponseView::<
            Resp::Model,
        >::TimeoutOrHeartbeat(failure.model()),
        LeanMetaResponse::<Resp>::Unsupported(failure).model() == LeanMetaResponseView::<
            Resp::Model,
        >::Unsupported(failure.model()),
{
}

} // verus!
