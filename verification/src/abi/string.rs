//! Strings.
//!
//! A Lean `String` is a UTF-8 byte buffer of explicit length, so embedded NUL
//! characters survive in both directions.

use vstd::prelude::*;
use vstd::string::*;
use vstd::utf8::*;

use crate::abi::scalar::{
    wrong_kind, wrong_kind_scalar, wrong_kind_scalar_text, wrong_kind_text,
};
use crate::abi::traits::{
    IntoLean, LeanAbi, LeanAbiRoundTrip, LeanModel, LeanRoundTrip, SealedAbi, TryFromLean,
    conversion_error,
};
use crate::error::{LeanError, LeanResult, abi_conversion_error};
use crate::module::args::CArg;
use crate::module::signature::LeanExportAbiRepr;
use crate::runtime::obj::Obj;
use crate::text::{decimal, lemma_encode_concat};

verus! {

/// Calls `core::str::from_utf8`: the text that `bytes` encode in UTF-8, and
/// `None` where they are no UTF-8.
#[verifier::external_body]
pub(crate) fn utf8_text(bytes: &[u8]) -> (r: Option<&str>)
    ensures
        r is Some <==> valid_utf8(bytes@),
        r matches Some(text) ==> encode_utf8(text@) == bytes@,
{
    core::str::from_utf8(bytes).ok()
}

/// The message for bytes that are no UTF-8.
pub open spec fn invalid_utf8_text() -> Seq<char> {
    "Lean string bytes were not valid UTF-8"@
}

fn invalid_utf8() -> (r: LeanError)
    ensures
        r@ == abi_conversion_error(invalid_utf8_text()),
{
    conversion_error("Lean string bytes were not valid UTF-8".to_owned())
}

/// The text of a Lean string, or why there is none.
pub open spec fn string_of(obj: Obj) -> Result<Seq<char>, Seq<char>> {
    match obj {
        Obj::Str(bytes) => if valid_utf8(bytes@) {
            Ok(decode_utf8(bytes@))
        } else {
            Err(invalid_utf8_text())
        },
        Obj::Scalar(_) => Err(wrong_kind_scalar_text("String"@)),
        _ => Err(wrong_kind_text("String"@, obj.spec_tag())),
    }
}

/// Whether `obj` is the Lean string with the given text.
pub open spec fn is_string(obj: Obj, text: Seq<char>) -> bool {
    obj matches Obj::Str(bytes) && bytes@ == encode_utf8(text)
}

/// Reading a Lean string gives back the text that it was built from.
pub proof fn string_round_trip(obj: Obj, text: Seq<char>)
    requires
        is_string(obj, text),
    ensures
        string_of(obj) == Ok::<Seq<char>, Seq<char>>(text),
{
    encode_utf8_valid_utf8(text);
    encode_utf8_decode_utf8(text);
}

/// Builds a Lean string.
#[must_use]
pub fn from_str(s: &str) -> (r: Obj)
    ensures
        is_string(r, s@),
{
    Obj::Str(s.as_bytes_vec())
}

/// Borrows the text of a Lean string.
pub fn borrow_str(obj: &Obj) -> (r: LeanResult<&str>)
    ensures
        match string_of(*obj) {
            Ok(text) => r matches Ok(s) && s@ == text,
            Err(message) => r matches Err(err) && err@ == abi_conversion_error(message),
        },
{
    match obj {
        Obj::Scalar(_) => Err(wrong_kind_scalar("String")),
        Obj::Str(bytes) => match utf8_text(bytes.as_slice()) {
            Some(text) => {
                proof {
                    encode_utf8_decode_utf8(text@);
                }
                Ok(text)
            },
            None => Err(invalid_utf8()),
        },
        _ => Err(wrong_kind("String", obj.heap_tag())),
    }
}

impl LeanModel for String {
    type Model = Seq<char>;

    open spec fn model(&self) -> Seq<char> {
        self@
    }
}

impl IntoLean for String {
    open spec fn encodes(model: Seq<char>, obj: Obj) -> bool {
        is_string(obj, model)
    }

    fn into_lean(self) -> (obj: Obj) {
        from_str(self.as_str())
    }
}

impl TryFromLean for String {
    open spec fn decoded(obj: Obj) -> Result<Seq<char>, Seq<char>> {
        string_of(obj)
    }

    fn try_from_lean(obj: Obj) -> (r: LeanResult<String>) {
        match borrow_str(&obj) {
            Ok(text) => Ok(text.to_owned()),
            Err(err) => Err(err),
        }
    }
}

impl LeanRoundTrip for String {
    proof fn round_trip(model: Seq<char>, obj: Obj) {
        string_round_trip(obj, model);
    }
}

impl SealedAbi for String {

}

impl LeanAbi for String {
    type CRepr = Obj;

    open spec fn c_repr() -> LeanExportAbiRepr {
        LeanExportAbiRepr::LeanObject
    }

    open spec fn c_encodes(model: Seq<char>, c: Obj) -> bool {
        is_string(c, model)
    }

    open spec fn c_decoded(c: Obj) -> Result<Seq<char>, Seq<char>> {
        string_of(c)
    }

    proof fn c_repr_is_that_of_the_type(arg: CArg) {
    }

    fn export_abi_repr() -> (r: LeanExportAbiRepr) {
        LeanExportAbiRepr::LeanObject
    }

    fn into_c(self) -> (c: Obj) {
        self.into_lean()
    }

    fn from_c(c: Obj) -> (r: LeanResult<String>) {
        String::try_from_lean(c)
    }
}

impl LeanAbiRoundTrip for String {
    proof fn c_round_trip(model: Seq<char>, c: Obj) {
        string_round_trip(c, model);
    }
}

impl<'a> LeanModel for &'a str {
    type Model = Seq<char>;

    open spec fn model(&self) -> Seq<char> {
        (*self)@
    }
}

impl<'a> SealedAbi for &'a str {

}

/// A borrowed string can be passed as an argument. It cannot be a result,
/// since there is nothing to borrow it from.
impl<'a> LeanAbi for &'a str {
    type CRepr = Obj;

    open spec fn c_repr() -> LeanExportAbiRepr {
        LeanExportAbiRepr::LeanObject
    }

    open spec fn c_encodes(model: Seq<char>, c: Obj) -> bool {
        is_string(c, model)
    }

    open spec fn c_decoded(c: Obj) -> Result<Seq<char>, Seq<char>> {
        Err(
            "&str cannot decode a Lean call result; use `String` for an owned copy or `borrow_str(&ObjRef)` for a zero-copy view"@,
        )
    }

    proof fn c_repr_is_that_of_the_type(arg: CArg) {
    }

    fn export_abi_repr() -> (r: LeanExportAbiRepr) {
        LeanExportAbiRepr::LeanObject
    }

    fn into_c(self) -> (c: Obj) {
        from_str(self)
    }

    fn from_c(c: Obj) -> (r: LeanResult<&'a str>) {
        Err(
            conversion_error(
                "&str cannot decode a Lean call result; use `String` for an owned copy or `borrow_str(&ObjRef)` for a zero-copy view".to_owned(),
            ),
        )
    }
}

/// A string is the UTF-8 encoding of its characters, each encoded on its own and none
/// left out, so that an embedded NUL survives. What is read from a string is the text
/// with that encoding; bytes that encode no text and other objects are refused.
pub proof fn strings_are_utf8(obj: Obj, first: Seq<char>, second: Seq<char>)
    ensures
        is_string(obj, first + second) <==> (obj matches Obj::Str(bytes) && bytes@ == encode_utf8(
            first,
        ) + encode_utf8(second)),
        string_of(obj) is Ok <==> (obj matches Obj::Str(bytes) && valid_utf8(bytes@)),
        string_of(obj) matches Ok(text) ==> (obj matches Obj::Str(bytes) && encode_utf8(text)
            == bytes@),
{
    lemma_encode_concat(first, second);
    if let Obj::Str(bytes) = obj {
        if valid_utf8(bytes@) {
            decode_utf8_encode_utf8(bytes@);
        }
    }
}

/// Strings stand for their text, owned or borrowed, boxed or at the C boundary, where
/// only an owned string can come back.
pub proof fn strings_stand_for_their_text(owned: String, borrowed: &str, obj: Obj)
    ensures
        owned.model() == owned@,
        borrowed.model() == borrowed@,
        <String as IntoLean>::encodes(owned@, obj) <==> is_string(obj, owned@),
        <String as LeanAbi>::c_encodes(owned@, obj) <==> is_string(obj, owned@),
        <&str as LeanAbi>::c_encodes(borrowed@, obj) <==> is_string(obj, borrowed@),
        <String as TryFromLean>::decoded(obj) == string_of(obj),
        <String as LeanAbi>::c_decoded(obj) == string_of(obj),
        <&str as LeanAbi>::c_decoded(obj) is Err,
{
}

/// What is no string, and bytes that are no UTF-8, are refused by what they are.
pub proof fn refused_strings_say_why(obj: Obj)
    ensures
        obj matches Obj::Str(bytes) ==> (!valid_utf8(bytes@) ==> string_of(obj) == Err::<
            Seq<char>,
            Seq<char>,
        >("Lean string bytes were not valid UTF-8"@)),
        obj is Scalar ==> string_of(obj) == Err::<Seq<char>, Seq<char>>(
            "expected Lean "@ + "String"@ + ", found scalar-tagged object"@,
        ),
        obj !is Scalar && obj !is Str ==> string_of(obj) == Err::<Seq<char>, Seq<char>>(
            "expected Lean "@ + "String"@ + ", found object with tag "@ + decimal(
                obj.spec_tag() as nat,
            ),
        ),
{
}

} // verus!
