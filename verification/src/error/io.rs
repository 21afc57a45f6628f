//! Results of Lean `IO` actions.
//!
//! An `IO` action returns a constructor: tag 0 carries the value, any other tag
//! the `IO.Error` that was raised. The kind of an error is the index of its
//! constructor; its message is its last field, where that is a string. An error
//! without such a field, or of an unknown constructor, gets a placeholder.

use vstd::prelude::*;
use vstd::string::*;
use vstd::utf8::*;

use crate::abi::string::is_string;
use crate::abi::structure::ctor_of;
use crate::abi::traits::conversion_error;
use crate::error::{
    HostStage, LeanDiagnosticCode, LeanError, LeanErrorView, LeanExceptionKind, LeanResult,
    abi_conversion_error, exceptions_keep_kind_and_message, kept_of, lean_exception_error,
};
use crate::runtime::obj::{Ctor, Obj};
use crate::text::{cat2, cat3, decimal, decimal_string};

verus! {

/// Number of constructors of `IO.Error` that have a kind of their own.
pub const KIND_TABLE_LEN: usize = 19;

/// The kind of the `IO.Error` constructor with the given index.
pub open spec fn kind_of_tag(tag: u32) -> LeanExceptionKind {
    match tag {
        0 => LeanExceptionKind::AlreadyExists,
        1 => LeanExceptionKind::OtherError,
        2 => LeanExceptionKind::ResourceBusy,
        3 => LeanExceptionKind::ResourceVanished,
        4 => LeanExceptionKind::UnsupportedOperation,
        5 => LeanExceptionKind::HardwareFault,
        6 => LeanExceptionKind::UnsatisfiedConstraints,
        7 => LeanExceptionKind::IllegalOperation,
        8 => LeanExceptionKind::ProtocolError,
        9 => LeanExceptionKind::TimeExpired,
        10 => LeanExceptionKind::Interrupted,
        11 => LeanExceptionKind::NoFileOrDirectory,
        12 => LeanExceptionKind::InvalidArgument,
        13 => LeanExceptionKind::PermissionDenied,
        14 => LeanExceptionKind::ResourceExhausted,
        15 => LeanExceptionKind::InappropriateType,
        16 => LeanExceptionKind::NoSuchThing,
        17 => LeanExceptionKind::UnexpectedEof,
        18 => LeanExceptionKind::UserError,
        _ => LeanExceptionKind::Other,
    }
}

/// The kind of the `IO.Error` constructor with the given index.
pub fn exception_kind(tag: u32) -> (r: LeanExceptionKind)
    ensures
        r == kind_of_tag(tag),
{
    match tag {
        0 => LeanExceptionKind::AlreadyExists,
        1 => LeanExceptionKind::OtherError,
        2 => LeanExceptionKind::ResourceBusy,
        3 => LeanExceptionKind::ResourceVanished,
        4 => LeanExceptionKind::UnsupportedOperation,
        5 => LeanExceptionKind::HardwareFault,
        6 => LeanExceptionKind::UnsatisfiedConstraints,
        7 => LeanExceptionKind::IllegalOperation,
        8 => LeanExceptionKind::ProtocolError,
        9 => LeanExceptionKind::TimeExpired,
        10 => LeanExceptionKind::Interrupted,
        11 => LeanExceptionKind::NoFileOrDirectory,
        12 => LeanExceptionKind::InvalidArgument,
        13 => LeanExceptionKind::PermissionDenied,
        14 => LeanExceptionKind::ResourceExhausted,
        15 => LeanExceptionKind::InappropriateType,
        16 => LeanExceptionKind::NoSuchThing,
        17 => LeanExceptionKind::UnexpectedEof,
        18 => LeanExceptionKind::UserError,
        _ => LeanExceptionKind::Other,
    }
}

/// The constructors of `IO.Error` with a kind of their own are exactly those
/// below [`KIND_TABLE_LEN`], and their kinds are pairwise distinct.
pub proof fn exception_kinds_are_distinct(a: u32, b: u32)
    ensures
        kind_of_tag(a) != LeanExceptionKind::Other <==> a < KIND_TABLE_LEN,
        a < KIND_TABLE_LEN && kind_of_tag(a) == kind_of_tag(b) ==> a == b,
{
}

/// The text that std's lossy UTF-8 decoding makes of bytes that are no UTF-8.
pub uninterp spec fn utf8_lossy(bytes: Seq<u8>) -> Seq<char>;

/// The text that `bytes` stand for: UTF-8 is decoded, anything else is patched up.
pub open spec fn lenient_text(bytes: Seq<u8>) -> Seq<char> {
    if valid_utf8(bytes) {
        decode_utf8(bytes)
    } else {
        utf8_lossy(bytes)
    }
}

/// Calls `String::from_utf8_lossy`: valid UTF-8 is decoded; in anything else the
/// ill-formed parts are replaced, in a way that depends on the bytes alone and is
/// not stated further.
#[verifier::external_body]
fn lossy_text(bytes: &[u8]) -> (r: String)
    ensures
        valid_utf8(bytes@) ==> r@ == decode_utf8(bytes@),
        !valid_utf8(bytes@) ==> r@ == utf8_lossy(bytes@),
{
    String::from_utf8_lossy(bytes).into_owned()
}

/// The bytes of the last field of an error, where it has fields and the last
/// one is a string.
pub open spec fn last_string_field(err: Obj) -> Option<Seq<u8>> {
    match err {
        Obj::Ctor(ctor) => if ctor.objects@.len() > 0 {
            match ctor.objects@.last() {
                Obj::Str(bytes) => Some(bytes@),
                _ => None,
            }
        } else {
            None
        },
        _ => None,
    }
}

/// The kind of an `IO.Error`.
pub open spec fn io_error_kind(err: Obj) -> LeanExceptionKind {
    match err {
        Obj::Scalar(_) => LeanExceptionKind::Other,
        _ => kind_of_tag(err.spec_tag()),
    }
}

/// The message of an `IO.Error`.
pub open spec fn io_error_message(err: Obj) -> Seq<char> {
    match err {
        Obj::Scalar(_) => "<Lean IO error: scalar-encoded constructor>"@,
        _ => match last_string_field(err) {
            Some(bytes) if err.spec_tag() < KIND_TABLE_LEN => lenient_text(bytes),
            _ => "<Lean IO error: constructor tag "@ + decimal(err.spec_tag() as nat) + ">"@,
        },
    }
}

fn read_last_string_field(err: &Obj) -> (r: Option<String>)
    ensures
        match last_string_field(*err) {
            Some(bytes) => r matches Some(text) && text@ == lenient_text(bytes),
            None => r is None,
        },
{
    match err {
        Obj::Ctor(ctor) => {
            if ctor.objects.len() == 0 {
                return None;
            }
            match &ctor.objects[ctor.objects.len() - 1] {
                Obj::Str(bytes) => Some(lossy_text(bytes.as_slice())),
                _ => None,
            }
        },
        _ => None,
    }
}

/// Reads the kind and the message of an `IO.Error`. Only the fields of known
/// constructors are read.
pub fn classify_io_error(err: &Obj) -> (r: (LeanExceptionKind, String))
    ensures
        r.0 == io_error_kind(*err),
        r.1@ == io_error_message(*err),
{
    if err.is_scalar() {
        return (
            LeanExceptionKind::Other,
            "<Lean IO error: scalar-encoded constructor>".to_owned(),
        );
    }
    let tag: u32 = err.heap_tag();
    let detail: Option<String> = if tag < KIND_TABLE_LEN as u32 {
        read_last_string_field(err)
    } else {
        None
    };
    let message: String = match detail {
        Some(text) => text,
        None => cat3(
            "<Lean IO error: constructor tag ",
            decimal_string(tag as u64).as_str(),
            ">",
        ),
    };
    (exception_kind(tag), message)
}

/// The value that an `IO` action returned, or the error that it ended with.
/// An object that is no `IO` result is a conversion error.
pub open spec fn io_outcome(result: Obj) -> Result<Obj, LeanErrorView> {
    match ctor_of(result) {
        Err(message) => Err(abi_conversion_error(message)),
        Ok(ctor) => if ctor.objects@.len() == 0 {
            Err(
                abi_conversion_error(
                    "expected Lean IO result with a payload, found constructor with tag "@
                        + decimal(ctor.tag as nat) + " and no fields"@,
                ),
            )
        } else if ctor.tag == 0 {
            Ok(ctor.objects@[0])
        } else {
            Err(
                lean_exception_error(
                    io_error_kind(ctor.objects@[0]),
                    io_error_message(ctor.objects@[0]),
                ),
            )
        },
    }
}

/// Splits the result of an `IO` action into its value and the exception that
/// Lean raised.
pub fn decode_io(result: Obj) -> (r: LeanResult<Obj>)
    ensures
        match io_outcome(result) {
            Ok(value) => r == Ok::<Obj, LeanError>(value),
            Err(err) => r matches Err(e) && e@ == err,
        },
{
    match result {
        Obj::Ctor(ctor) => {
            let Ctor { tag, objects, scalars } = ctor;
            let mut objects: Vec<Obj> = objects;
            if objects.len() == 0 {
                Err(
                    conversion_error(
                        cat3(
                            "expected Lean IO result with a payload, found constructor with tag ",
                            decimal_string(tag as u64).as_str(),
                            " and no fields",
                        ),
                    ),
                )
            } else {
                let payload: Obj = objects.remove(0);
                if tag == 0 {
                    Ok(payload)
                } else {
                    let (kind, message) = classify_io_error(&payload);
                    Err(LeanError::lean_exception(kind, message))
                }
            }
        },
        Obj::Scalar(_) => Err(
            conversion_error("expected Lean constructor, found scalar-tagged object".to_owned()),
        ),
        _ => Err(
            conversion_error(
                cat2(
                    "expected Lean constructor, found object with tag ",
                    decimal_string(result.heap_tag() as u64).as_str(),
                ),
            ),
        ),
    }
}

/// An error of a known constructor whose last field is a string is raised with that
/// string as its message, bounded, and with the kind of its constructor.
pub proof fn raised_message_is_kept(result: Obj, err: Ctor, text: Seq<char>)
    requires
        result matches Obj::Ctor(ctor) && ctor.tag != 0 && ctor.objects@.len() > 0
            && ctor.objects@[0] == Obj::Ctor(err),
        err.tag < KIND_TABLE_LEN,
        err.objects@.len() > 0,
        is_string(err.objects@.last(), text),
    ensures
        io_outcome(result) == Err::<Obj, LeanErrorView>(
            lean_exception_error(kind_of_tag(err.tag as u32), text),
        ),
{
    encode_utf8_valid_utf8(text);
    encode_utf8_decode_utf8(text);
}

/// Whether `result` is what a successful `IO` action returns for `value`.
pub open spec fn is_io_ok(result: Obj, value: Obj) -> bool {
    result matches Obj::Ctor(ctor) && ctor.tag == 0 && ctor.objects@.len() > 0 && ctor.objects@[0]
        == value
}

/// Decoding the result of a successful `IO` action gives its value.
pub proof fn io_ok_round_trip(result: Obj, value: Obj)
    requires
        is_io_ok(result, value),
    ensures
        io_outcome(result) == Ok::<Obj, LeanErrorView>(value),
{
}

/// The constructors of `IO.Error` in their declaration order.
pub open spec fn kinds_in_order() -> Seq<LeanExceptionKind> {
    seq![
        LeanExceptionKind::AlreadyExists,
        LeanExceptionKind::OtherError,
        LeanExceptionKind::ResourceBusy,
        LeanExceptionKind::ResourceVanished,
        LeanExceptionKind::UnsupportedOperation,
        LeanExceptionKind::HardwareFault,
        LeanExceptionKind::UnsatisfiedConstraints,
        LeanExceptionKind::IllegalOperation,
        LeanExceptionKind::ProtocolError,
        LeanExceptionKind::TimeExpired,
        LeanExceptionKind::Interrupted,
        LeanExceptionKind::NoFileOrDirectory,
        LeanExceptionKind::InvalidArgument,
        LeanExceptionKind::PermissionDenied,
        LeanExceptionKind::ResourceExhausted,
        LeanExceptionKind::InappropriateType,
        LeanExceptionKind::NoSuchThing,
        LeanExceptionKind::UnexpectedEof,
        LeanExceptionKind::UserError,
    ]
}

/// The tag of an `IO.Error` is the position of its constructor in declaration order;
/// a tag behind them all is of no known kind.
pub proof fn tags_follow_declaration_order(tag: u32)
    ensures
        tag < kinds_in_order().len() ==> kind_of_tag(tag) == kinds_in_order()[tag as int],
        tag >= kinds_in_order().len() ==> kind_of_tag(tag) == LeanExceptionKind::Other,
{
}

/// An `IO` action succeeded exactly when its result is a constructor with tag zero
/// and a field, and the value is the first field. With another tag the first field
/// was raised, by its kind and message; everything else is no `IO` result, which is
/// a failed conversion and no exception.
pub proof fn io_results_go_by_their_tag(result: Obj)
    ensures
        io_outcome(result) is Ok <==> (result matches Obj::Ctor(ctor) && ctor.tag == 0
            && ctor.objects@.len() > 0),
        io_outcome(result) matches Ok(value) ==> value == result->Ctor_0.objects@[0],
        io_outcome(result) matches Err(LeanErrorView::LeanException { kind, message }) ==> {
            let raised = result->Ctor_0.objects@[0];
            &&& result->Ctor_0.tag != 0
            &&& result->Ctor_0.objects@.len() > 0
            &&& kind == io_error_kind(raised)
            &&& kept_of(io_error_message(raised), message)
        },
        io_outcome(result) matches Err(LeanErrorView::Host { stage, code, .. }) ==> {
            &&& stage == HostStage::Conversion
            &&& code == LeanDiagnosticCode::AbiConversion
            &&& result !is Ctor || result->Ctor_0.objects@.len() == 0
        },
        (result matches Obj::Ctor(ctor) && ctor.tag != 0 && ctor.objects@.len() > 0) ==> (io_outcome(
            result,
        ) matches Err(err) && err is LeanException),
{
    if let Obj::Ctor(ctor) = result {
        let raised = ctor.objects@[0];
        exceptions_keep_kind_and_message(
            io_error_kind(raised),
            io_error_message(raised),
            HostStage::Conversion,
            LeanDiagnosticCode::AbiConversion,
        );
    }
}

/// The kind of an error that was raised goes by its tag, whatever its fields; an error
/// in scalar form is of no known kind. Its message is its last field, where its
/// constructor is known and that field is a string of valid UTF-8; without such a
/// field the message shows the tag.
pub proof fn raised_errors_go_by_tag_and_last_field(err: Obj)
    ensures
        err matches Obj::Ctor(ctor) ==> io_error_kind(err) == kind_of_tag(ctor.tag as u32),
        err is Scalar ==> io_error_kind(err) == LeanExceptionKind::Other,
        err matches Obj::Ctor(ctor) ==> (ctor.objects@.len() > 0 && ctor.tag < 19 ==> (
        ctor.objects@[ctor.objects@.len() - 1] matches Obj::Str(bytes) ==> (valid_utf8(bytes@)
            ==> encode_utf8(io_error_message(err)) == bytes@))),
        err matches Obj::Ctor(ctor) ==> (ctor.tag >= 19 || ctor.objects@.len() == 0
            || ctor.objects@[ctor.objects@.len() - 1] !is Str ==> io_error_message(err)
            == "<Lean IO error: constructor tag "@ + decimal(ctor.tag as nat) + ">"@),
{
    if let Obj::Ctor(ctor) = err {
        if ctor.objects@.len() > 0 {
            if let Obj::Str(bytes) = ctor.objects@[ctor.objects@.len() - 1] {
                if valid_utf8(bytes@) {
                    decode_utf8_encode_utf8(bytes@);
                }
            }
        }
    }
}

/// The texts that stand for errors without a readable message: one in scalar form, and
/// the last field of bytes that are no UTF-8, patched up.
pub proof fn unreadable_errors_have_a_text(err: Obj)
    ensures
        err is Scalar ==> io_error_message(err) == "<Lean IO error: scalar-encoded constructor>"@,
        err matches Obj::Ctor(ctor) ==> (ctor.tag < 19 && ctor.objects@.len() > 0 ==> (
        ctor.objects@[ctor.objects@.len() - 1] matches Obj::Str(bytes) ==> (!valid_utf8(bytes@)
            ==> io_error_message(err) == utf8_lossy(bytes@)))),
        err !is Scalar && err !is Ctor ==> io_error_kind(err) == LeanExceptionKind::Other,
{
}

/// A result without a payload is refused by its tag.
pub proof fn empty_results_show_their_tag(ctor: Ctor)
    requires
        ctor.objects@.len() == 0,
    ensures
        io_outcome(Obj::Ctor(ctor)) == Err::<Obj, LeanErrorView>(
            abi_conversion_error(
                "expected Lean IO result with a payload, found constructor with tag "@ + decimal(
                    ctor.tag as nat,
                ) + " and no fields"@,
            ),
        ),
{
}

} // verus!
