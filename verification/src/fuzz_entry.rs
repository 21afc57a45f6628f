//! Direct entry points to the decoders, for harnesses that feed them arbitrary
//! objects. Every decoder returns a value or a conversion error.

use vstd::prelude::*;

use crate::abi::array::decoded_array;
use crate::abi::bytearray::{self, bytes_of};
use crate::abi::except::decoded_result;
use crate::abi::lean_nat::{self, nat_u64_of};
use crate::abi::option::decoded_option;
use crate::abi::string::string_of;
use crate::abi::structure::{self, ctor_tag_of};
use crate::abi::traits::{TryFromLean, converts, reads};
use crate::error::{LeanResult, abi_conversion_error};
use crate::runtime::obj::Obj;

verus! {

/// Decodes a `String`.
pub fn decode_string(obj: Obj) -> (r: LeanResult<String>)
    ensures
        converts(r, string_of(obj)),
{
    String::try_from_lean(obj)
}

/// Decodes a `ByteArray`.
pub fn decode_bytearray(obj: Obj) -> (r: LeanResult<Vec<u8>>)
    ensures
        match bytes_of(obj) {
            Ok(content) => r matches Ok(bytes) && bytes@ == content,
            Err(message) => r matches Err(err) && err@ == abi_conversion_error(message),
        },
{
    bytearray::to_vec(obj)
}

/// Decodes an `Array UInt64`.
pub fn decode_array_u64(obj: Obj) -> (r: LeanResult<Vec<u64>>)
    ensures
        converts(r, decoded_array::<u64>(obj)),
{
    Vec::<u64>::try_from_lean(obj)
}

/// Decodes an `Option UInt64`.
pub fn decode_option_u64(obj: Obj) -> (r: LeanResult<Option<u64>>)
    ensures
        converts(r, decoded_option::<u64>(obj)),
{
    Option::<u64>::try_from_lean(obj)
}

/// Decodes an `Except String UInt64`.
pub fn decode_except(obj: Obj) -> (r: LeanResult<Result<u64, String>>)
    ensures
        converts(r, decoded_result::<u64, String>(obj)),
{
    Result::<u64, String>::try_from_lean(obj)
}

/// Decodes a scalar `Nat`.
pub fn decode_nat_u64(obj: Obj) -> (r: LeanResult<u64>)
    ensures
        reads(r, nat_u64_of(obj)),
{
    lean_nat::try_to_u64(obj)
}

/// Reads the tag of a constructor.
pub fn decode_ctor_tag(obj: Obj) -> (r: LeanResult<u8>)
    ensures
        reads(r, ctor_tag_of(obj)),
{
    structure::ctor_tag(&obj)
}

} // verus!
