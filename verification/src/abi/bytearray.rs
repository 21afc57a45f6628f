//! Byte arrays.
//!
//! A Lean `ByteArray` is an array of scalars of one byte each. `Vec<u8>` itself
//! converts to an `Array UInt8`; byte arrays go through the functions here.

use vstd::prelude::*;
use vstd::slice::*;

use crate::abi::scalar::{
    wrong_kind, wrong_kind_scalar, wrong_kind_scalar_text, wrong_kind_text,
};
use crate::error::{LeanResult, abi_conversion_error};
use crate::runtime::obj::Obj;

verus! {

/// The bytes of a Lean byte array, or why there are none.
pub open spec fn bytes_of(obj: Obj) -> Result<Seq<u8>, Seq<char>> {
    match obj {
        Obj::ScalarArray { elem_size, bytes } => if elem_size == 1 {
            Ok(bytes@)
        } else {
            Err(wrong_kind_text("ByteArray"@, obj.spec_tag()))
        },
        Obj::Scalar(_) => Err(wrong_kind_scalar_text("ByteArray"@)),
        _ => Err(wrong_kind_text("ByteArray"@, obj.spec_tag())),
    }
}

/// Whether `obj` is the Lean byte array with the given bytes.
pub open spec fn is_byte_array(obj: Obj, content: Seq<u8>) -> bool {
    obj matches Obj::ScalarArray { elem_size, bytes } && elem_size == 1 && bytes@ == content
}

/// Reading a Lean byte array gives back the bytes that it was built from.
pub proof fn byte_array_round_trip(obj: Obj, content: Seq<u8>)
    requires
        is_byte_array(obj, content),
    ensures
        bytes_of(obj) == Ok::<Seq<u8>, Seq<char>>(content),
{
}

/// Builds a Lean byte array.
#[must_use]
pub fn from_bytes(bytes: &[u8]) -> (r: Obj)
    ensures
        is_byte_array(r, bytes@),
{
    Obj::ScalarArray { elem_size: 1, bytes: slice_to_vec(bytes) }
}

/// Borrows the bytes of a Lean byte array.
pub fn borrow_bytes(obj: &Obj) -> (r: LeanResult<&[u8]>)
    ensures
        match bytes_of(*obj) {
            Ok(content) => r matches Ok(bytes) && bytes@ == content,
            Err(message) => r matches Err(err) && err@ == abi_conversion_error(message),
        },
{
    match obj {
        Obj::Scalar(_) => Err(wrong_kind_scalar("ByteArray")),
        Obj::ScalarArray { elem_size, bytes } => if *elem_size == 1 {
            Ok(bytes.as_slice())
        } else {
            Err(wrong_kind("ByteArray", obj.heap_tag()))
        },
        _ => Err(wrong_kind("ByteArray", obj.heap_tag())),
    }
}

/// Takes the bytes of a Lean byte array.
pub fn to_vec(obj: Obj) -> (r: LeanResult<Vec<u8>>)
    ensures
        match bytes_of(obj) {
            Ok(content) => r matches Ok(bytes) && bytes@ == content,
            Err(message) => r matches Err(err) && err@ == abi_conversion_error(message),
        },
{
    match borrow_bytes(&obj) {
        Ok(bytes) => Ok(slice_to_vec(bytes)),
        Err(err) => Err(err),
    }
}

/// Byte arrays are arrays of scalars of one byte each, and hold their bytes in order;
/// nothing else is read as a byte array.
pub proof fn byte_arrays_hold_their_bytes(obj: Obj, content: Seq<u8>)
    ensures
        is_byte_array(obj, content) <==> (obj matches Obj::ScalarArray { elem_size, bytes }
            && elem_size == 1 && bytes@.len() == content.len() && forall|i: int|
            0 <= i < content.len() ==> bytes@[i] == #[trigger] content[i]),
        bytes_of(obj) is Ok <==> (obj matches Obj::ScalarArray { elem_size, .. } && elem_size == 1),
        bytes_of(obj) matches Ok(read) ==> is_byte_array(obj, read),
{
    if let Obj::ScalarArray { elem_size, bytes } = obj {
        if bytes@.len() == content.len() && forall|i: int|
            0 <= i < content.len() ==> bytes@[i] == #[trigger] content[i] {
            assert(bytes@ =~= content);
        }
    }
}

} // verus!
