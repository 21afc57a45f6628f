//! Scalars: `()`, `bool`, fixed-width integers, `usize`, `isize` and `char`.
//!
//! In a boxed position, integers of up to 32 bits, `bool`, `char` and `()` are
//! packed into a scalar; wider integers live in the scalar tail of a constructor
//! without object fields. Signed integers share the bit pattern of the unsigned
//! integer of the same width. At the C boundary all of them but `()` are
//! unboxed.

use vstd::bytes::*;
use vstd::prelude::*;
use vstd::string::*;
use vstd::utf8::{char_is_scalar, char_u32_cast, is_scalar};

use crate::abi::structure::{uint64_of, view};
use crate::abi::traits::{
    IntoLean, LeanAbi, LeanAbiRoundTrip, LeanModel, LeanRoundTrip, SealedAbi, TryFromLean,
    conversion_error, reads,
};
use crate::error::{LeanError, LeanResult, abi_conversion_error};
use crate::module::args::CArg;
use crate::module::signature::LeanExportAbiRepr;
use crate::runtime::obj::{Ctor, Obj};
use crate::text::{cat2, cat3, cat4, decimal, decimal_string, hex, hex_string};

verus! {

/// The message for an object of another kind than `expected`.
pub open spec fn wrong_kind_text(expected: Seq<char>, tag: u32) -> Seq<char> {
    "expected Lean "@ + expected + ", found object with tag "@ + decimal(tag as nat)
}

/// The message for a scalar where an object was `expected`.
pub open spec fn wrong_kind_scalar_text(expected: Seq<char>) -> Seq<char> {
    "expected Lean "@ + expected + ", found scalar-tagged object"@
}

/// The message for a value outside the range of the Rust type `expected`.
pub open spec fn out_of_range_text(expected: Seq<char>) -> Seq<char> {
    "Lean value does not fit Rust "@ + expected
}

/// Builds the error for an object of another kind than `expected`.
pub fn wrong_kind(expected: &str, found_tag: u32) -> (r: LeanError)
    ensures
        r@ == abi_conversion_error(wrong_kind_text(expected@, found_tag)),
{
    conversion_error(
        cat4(
            "expected Lean ",
            expected,
            ", found object with tag ",
            decimal_string(found_tag as u64).as_str(),
        ),
    )
}

/// Builds the error for a scalar where an object was `expected`.
pub fn wrong_kind_scalar(expected: &str) -> (r: LeanError)
    ensures
        r@ == abi_conversion_error(wrong_kind_scalar_text(expected@)),
{
    conversion_error(cat3("expected Lean ", expected, ", found scalar-tagged object"))
}

/// Builds the error for a value outside the range of the Rust type `expected`.
pub fn out_of_range(expected: &str) -> (r: LeanError)
    ensures
        r@ == abi_conversion_error(out_of_range_text(expected@)),
{
    conversion_error(cat2("Lean value does not fit Rust ", expected))
}

/// The payload of a scalar, or why there is none.
pub open spec fn scalar_of(obj: Obj, expected: Seq<char>) -> Result<usize, Seq<char>> {
    match obj {
        Obj::Scalar(payload) => Ok(payload),
        _ => Err(wrong_kind_text(expected, obj.spec_tag())),
    }
}

/// The constructor that boxes a wide scalar, or why there is none.
pub open spec fn boxed_of(obj: Obj, expected: Seq<char>) -> Result<Ctor, Seq<char>> {
    match obj {
        Obj::Ctor(ctor) => Ok(ctor),
        Obj::Scalar(_) => Err(wrong_kind_scalar_text(expected)),
        _ => Err(wrong_kind_text(expected, obj.spec_tag())),
    }
}

/// The 64 bits in a boxed wide scalar, or why there are none.
pub open spec fn boxed_bits_of(obj: Obj, expected: Seq<char>) -> Result<u64, Seq<char>> {
    match boxed_of(obj, expected) {
        Ok(ctor) => uint64_of(ctor.scalars@, 0, expected),
        Err(message) => Err(message),
    }
}

/// Whether `obj` boxes the given 64 bits.
pub open spec fn boxes_bits(obj: Obj, bits: u64) -> bool {
    obj matches Obj::Ctor(ctor) && ctor.tag == 0 && ctor.objects@.len() == 0 && ctor.scalars@
        == spec_u64_to_le_bytes(bits)
}

/// Boxed bits are read back.
pub proof fn lemma_boxed_bits(obj: Obj, bits: u64, expected: Seq<char>)
    requires
        boxes_bits(obj, bits),
    ensures
        boxed_bits_of(obj, expected) == Ok::<u64, Seq<char>>(bits),
{
    lemma_auto_spec_u64_to_from_le_bytes();
    let scalars = spec_u64_to_le_bytes(bits);
    assert(scalars.subrange(0, 8) =~= scalars);
}

/// Requires a scalar and reads its payload.
pub fn require_scalar(obj: &Obj, expected: &str) -> (r: LeanResult<usize>)
    ensures
        reads(r, scalar_of(*obj, expected@)),
{
    match obj {
        Obj::Scalar(payload) => Ok(*payload),
        _ => Err(wrong_kind(expected, obj.heap_tag())),
    }
}

/// Requires a boxed wide scalar and reads its bits.
pub fn require_boxed_bits(obj: &Obj, expected: &str) -> (r: LeanResult<u64>)
    ensures
        reads(r, boxed_bits_of(*obj, expected@)),
{
    match obj {
        Obj::Scalar(_) => Err(wrong_kind_scalar(expected)),
        Obj::Ctor(_) => match view(obj).ctor() {
            Ok(ctor) => ctor.uint64(0, expected),
            Err(err) => Err(err),
        },
        _ => Err(wrong_kind(expected, obj.heap_tag())),
    }
}

/// Boxes 64 bits.
pub fn box_bits(bits: u64) -> (r: Obj)
    ensures
        boxes_bits(r, bits),
{
    Obj::Ctor(Ctor { tag: 0, objects: Vec::new(), scalars: u64_to_le_bytes(bits) })
}

/// `char::from_u32` gives the character with the code point `code`, and `None`
/// where `code` is no Unicode scalar value.
pub assume_specification[ char::from_u32 ](code: u32) -> (r: Option<char>)
    ensures
        r is Some <==> is_scalar(code),
        r matches Some(ch) ==> ch as u32 == code,
;

/// The character with a code point, or why there is none.
pub open spec fn char_of(code: u32) -> Result<char, Seq<char>> {
    if is_scalar(code) {
        Ok(code as char)
    } else {
        Err("Lean char "@ + hex(code as nat) + " is not a Unicode scalar value"@)
    }
}

/// Reads a code point as a character.
pub fn char_from_code(code: u32) -> (r: LeanResult<char>)
    ensures
        reads(r, char_of(code)),
{
    match char::from_u32(code) {
        Some(ch) => {
            proof {
                char_u32_cast(ch, code);
            }
            Ok(ch)
        },
        None => Err(
            conversion_error(
                cat3("Lean char ", hex_string(code).as_str(), " is not a Unicode scalar value"),
            ),
        ),
    }
}

impl LeanModel for () {
    type Model = ();

    open spec fn model(&self) -> () {
        *self
    }
}

impl IntoLean for () {
    open spec fn encodes(model: (), obj: Obj) -> bool {
        obj == Obj::Scalar(0)
    }

    fn into_lean(self) -> (obj: Obj) {
        Obj::Scalar(0)
    }
}

impl TryFromLean for () {
    open spec fn decoded(obj: Obj) -> Result<(), Seq<char>> {
        match scalar_of(obj, "Unit"@) {
            Ok(_) => Ok(()),
            Err(message) => Err(message),
        }
    }

    fn try_from_lean(obj: Obj) -> (r: LeanResult<()>) {
        match require_scalar(&obj, "Unit") {
            Ok(_) => Ok(()),
            Err(err) => Err(err),
        }
    }
}

impl LeanRoundTrip for () {
    proof fn round_trip(model: (), obj: Obj) {
    }
}

impl SealedAbi for () {

}

impl LeanAbi for () {
    type CRepr = Obj;

    open spec fn c_repr() -> LeanExportAbiRepr {
        LeanExportAbiRepr::LeanObject
    }

    open spec fn c_encodes(model: (), c: Obj) -> bool {
        <() as IntoLean>::encodes(model, c)
    }

    open spec fn c_decoded(c: Obj) -> Result<(), Seq<char>> {
        <() as TryFromLean>::decoded(c)
    }

    proof fn c_repr_is_that_of_the_type(arg: CArg) {
    }

    fn export_abi_repr() -> (r: LeanExportAbiRepr) {
        LeanExportAbiRepr::LeanObject
    }

    fn into_c(self) -> (c: Obj) {
        self.into_lean()
    }

    fn from_c(c: Obj) -> (r: LeanResult<()>) {
        <() as TryFromLean>::try_from_lean(c)
    }
}

impl LeanAbiRoundTrip for () {
    proof fn c_round_trip(model: (), c: Obj) {
        <() as LeanRoundTrip>::round_trip(model, c);
    }
}

impl LeanModel for bool {
    type Model = bool;

    open spec fn model(&self) -> bool {
        *self
    }
}

/// The truth value that a number stands for, or why it stands for none.
pub open spec fn truth_of(n: int) -> Result<bool, Seq<char>> {
    if n == 0 {
        Ok(false)
    } else if n == 1 {
        Ok(true)
    } else {
        Err(out_of_range_text("bool"@))
    }
}

impl IntoLean for bool {
    open spec fn encodes(model: bool, obj: Obj) -> bool {
        obj == Obj::Scalar(
            if model {
                1
            } else {
                0
            },
        )
    }

    fn into_lean(self) -> (obj: Obj) {
        if self {
            Obj::Scalar(1)
        } else {
            Obj::Scalar(0)
        }
    }
}

impl TryFromLean for bool {
    open spec fn decoded(obj: Obj) -> Result<bool, Seq<char>> {
        match scalar_of(obj, "Bool"@) {
            Ok(payload) => truth_of(payload as int),
            Err(message) => Err(message),
        }
    }

    fn try_from_lean(obj: Obj) -> (r: LeanResult<bool>) {
        match require_scalar(&obj, "Bool") {
            Ok(0) => Ok(false),
            Ok(1) => Ok(true),
            Ok(_) => Err(out_of_range("bool")),
            Err(err) => Err(err),
        }
    }
}

impl LeanRoundTrip for bool {
    proof fn round_trip(model: bool, obj: Obj) {
    }
}

impl SealedAbi for bool {

}

impl LeanAbi for bool {
    type CRepr = u8;

    open spec fn c_repr() -> LeanExportAbiRepr {
        LeanExportAbiRepr::U8
    }

    open spec fn c_encodes(model: bool, c: u8) -> bool {
        c == if model { 1u8 } else { 0u8 }
    }

    open spec fn c_decoded(c: u8) -> Result<bool, Seq<char>> {
        truth_of(c as int)
    }

    proof fn c_repr_is_that_of_the_type(arg: CArg) {
    }

    fn export_abi_repr() -> (r: LeanExportAbiRepr) {
        LeanExportAbiRepr::U8
    }

    fn into_c(self) -> (c: u8) {
        if self { 1 } else { 0 }
    }

    fn from_c(c: u8) -> (r: LeanResult<bool>) {
        match c {
            0 => Ok(false),
            1 => Ok(true),
            _ => Err(out_of_range("bool")),
        }
    }
}

impl LeanAbiRoundTrip for bool {
    proof fn c_round_trip(model: bool, c: u8) {
    }
}

impl LeanModel for u8 {
    type Model = u8;

    open spec fn model(&self) -> u8 {
        *self
    }
}

impl IntoLean for u8 {
    open spec fn encodes(model: u8, obj: Obj) -> bool {
        obj == Obj::Scalar(model as usize)
    }

    fn into_lean(self) -> (obj: Obj) {
        Obj::Scalar(self as usize)
    }
}

impl TryFromLean for u8 {
    open spec fn decoded(obj: Obj) -> Result<u8, Seq<char>> {
        match scalar_of(obj, "u8"@) {
            Ok(payload) => if payload <= u8::MAX {
                Ok(payload as u8)
            } else {
                Err(out_of_range_text("u8"@))
            },
            Err(message) => Err(message),
        }
    }

    fn try_from_lean(obj: Obj) -> (r: LeanResult<u8>) {
        match require_scalar(&obj, "u8") {
            Ok(payload) => if payload <= u8::MAX as usize {
                Ok(payload as u8)
            } else {
                Err(out_of_range("u8"))
            },
            Err(err) => Err(err),
        }
    }
}

impl LeanRoundTrip for u8 {
    proof fn round_trip(model: u8, obj: Obj) {
    }
}

impl SealedAbi for u8 {

}

impl LeanAbi for u8 {
    type CRepr = u8;

    open spec fn c_repr() -> LeanExportAbiRepr {
        LeanExportAbiRepr::U8
    }

    open spec fn c_encodes(model: u8, c: u8) -> bool {
        c == model
    }

    open spec fn c_decoded(c: u8) -> Result<u8, Seq<char>> {
        Ok(c)
    }

    proof fn c_repr_is_that_of_the_type(arg: CArg) {
    }

    fn export_abi_repr() -> (r: LeanExportAbiRepr) {
        LeanExportAbiRepr::U8
    }

    fn into_c(self) -> (c: u8) {
        self
    }

    fn from_c(c: u8) -> (r: LeanResult<u8>) {
        Ok(c)
    }
}

impl LeanAbiRoundTrip for u8 {
    proof fn c_round_trip(model: u8, c: u8) {
    }
}

impl LeanModel for u16 {
    type Model = u16;

    open spec fn model(&self) -> u16 {
        *self
    }
}

impl IntoLean for u16 {
    open spec fn encodes(model: u16, obj: Obj) -> bool {
        obj == Obj::Scalar(model as usize)
    }

    fn into_lean(self) -> (obj: Obj) {
        Obj::Scalar(self as usize)
    }
}

impl TryFromLean for u16 {
    open spec fn decoded(obj: Obj) -> Result<u16, Seq<char>> {
        match scalar_of(obj, "u16"@) {
            Ok(payload) => if payload <= u16::MAX {
                Ok(payload as u16)
            } else {
                Err(out_of_range_text("u16"@))
            },
            Err(message) => Err(message),
        }
    }

    fn try_from_lean(obj: Obj) -> (r: LeanResult<u16>) {
        match require_scalar(&obj, "u16") {
            Ok(payload) => if payload <= u16::MAX as usize {
                Ok(payload as u16)
            } else {
                Err(out_of_range("u16"))
            },
            Err(err) => Err(err),
        }
    }
}

impl LeanRoundTrip for u16 {
    proof fn round_trip(model: u16, obj: Obj) {
    }
}

impl SealedAbi for u16 {

}

impl LeanAbi for u16 {
    type CRepr = u16;

    open spec fn c_repr() -> LeanExportAbiRepr {
        LeanExportAbiRepr::U16
    }

    open spec fn c_encodes(model: u16, c: u16) -> bool {
        c == model
    }

    open spec fn c_decoded(c: u16) -> Result<u16, Seq<char>> {
        Ok(c)
    }

    proof fn c_repr_is_that_of_the_type(arg: CArg) {
    }

    fn export_abi_repr() -> (r: LeanExportAbiRepr) {
        LeanExportAbiRepr::U16
    }

    fn into_c(self) -> (c: u16) {
        self
    }

    fn from_c(c: u16) -> (r: LeanResult<u16>) {
        Ok(c)
    }
}

impl LeanAbiRoundTrip for u16 {
    proof fn c_round_trip(model: u16, c: u16) {
    }
}

impl LeanModel for u32 {
    type Model = u32;

    open spec fn model(&self) -> u32 {
        *self
    }
}

impl IntoLean for u32 {
    open spec fn encodes(model: u32, obj: Obj) -> bool {
        obj == Obj::Scalar(model as usize)
    }

    fn into_lean(self) -> (obj: Obj) {
        Obj::Scalar(self as usize)
    }
}

impl TryFromLean for u32 {
    open spec fn decoded(obj: Obj) -> Result<u32, Seq<char>> {
        match scalar_of(obj, "u32"@) {
            Ok(payload) => if payload <= u32::MAX {
                Ok(payload as u32)
            } else {
                Err(out_of_range_text("u32"@))
            },
            Err(message) => Err(message),
        }
    }

    fn try_from_lean(obj: Obj) -> (r: LeanResult<u32>) {
        match require_scalar(&obj, "u32") {
            Ok(payload) => if payload <= u32::MAX as usize {
                Ok(payload as u32)
            } else {
                Err(out_of_range("u32"))
            },
            Err(err) => Err(err),
        }
    }
}

impl LeanRoundTrip for u32 {
    proof fn round_trip(model: u32, obj: Obj) {
    }
}

impl SealedAbi for u32 {

}

impl LeanAbi for u32 {
    type CRepr = u32;

    open spec fn c_repr() -> LeanExportAbiRepr {
        LeanExportAbiRepr::U32
    }

    open spec fn c_encodes(model: u32, c: u32) -> bool {
        c == model
    }

    open spec fn c_decoded(c: u32) -> Result<u32, Seq<char>> {
        Ok(c)
    }

    proof fn c_repr_is_that_of_the_type(arg: CArg) {
    }

    fn export_abi_repr() -> (r: LeanExportAbiRepr) {
        LeanExportAbiRepr::U32
    }

    fn into_c(self) -> (c: u32) {
        self
    }

    fn from_c(c: u32) -> (r: LeanResult<u32>) {
        Ok(c)
    }
}

impl LeanAbiRoundTrip for u32 {
    proof fn c_round_trip(model: u32, c: u32) {
    }
}

impl LeanModel for i8 {
    type Model = i8;

    open spec fn model(&self) -> i8 {
        *self
    }
}

/// The bit pattern of an `i8`, read as a `u8`.
pub open spec fn i8_bits(model: i8) -> int {
    if model >= 0 {
        model as int
    } else {
        model + 0x100
    }
}

/// The `i8` with the bit pattern of a `u8`.
pub open spec fn i8_from_bits(bits: int) -> int {
    if bits <= i8::MAX {
        bits
    } else {
        bits - 0x100
    }
}

impl IntoLean for i8 {
    open spec fn encodes(model: i8, obj: Obj) -> bool {
        obj == Obj::Scalar(i8_bits(model) as usize)
    }

    fn into_lean(self) -> (obj: Obj) {
        if self >= 0 {
            Obj::Scalar(self as usize)
        } else {
            Obj::Scalar((self as i64 + 0x100) as usize)
        }
    }
}

impl TryFromLean for i8 {
    open spec fn decoded(obj: Obj) -> Result<i8, Seq<char>> {
        match scalar_of(obj, "i8"@) {
            Ok(payload) => if payload <= u8::MAX {
                Ok(i8_from_bits(payload as int) as i8)
            } else {
                Err(out_of_range_text("i8"@))
            },
            Err(message) => Err(message),
        }
    }

    fn try_from_lean(obj: Obj) -> (r: LeanResult<i8>) {
        match require_scalar(&obj, "i8") {
            Ok(payload) => if payload <= i8::MAX as usize {
                Ok(payload as i8)
            } else if payload <= u8::MAX as usize {
                Ok((payload as i64 - 0x100) as i8)
            } else {
                Err(out_of_range("i8"))
            },
            Err(err) => Err(err),
        }
    }
}

impl LeanRoundTrip for i8 {
    proof fn round_trip(model: i8, obj: Obj) {
    }
}

impl SealedAbi for i8 {

}

impl LeanAbi for i8 {
    type CRepr = i8;

    open spec fn c_repr() -> LeanExportAbiRepr {
        LeanExportAbiRepr::I8
    }

    open spec fn c_encodes(model: i8, c: i8) -> bool {
        c == model
    }

    open spec fn c_decoded(c: i8) -> Result<i8, Seq<char>> {
        Ok(c)
    }

    proof fn c_repr_is_that_of_the_type(arg: CArg) {
    }

    fn export_abi_repr() -> (r: LeanExportAbiRepr) {
        LeanExportAbiRepr::I8
    }

    fn into_c(self) -> (c: i8) {
        self
    }

    fn from_c(c: i8) -> (r: LeanResult<i8>) {
        Ok(c)
    }
}

impl LeanAbiRoundTrip for i8 {
    proof fn c_round_trip(model: i8, c: i8) {
    }
}

impl LeanModel for i16 {
    type Model = i16;

    open spec fn model(&self) -> i16 {
        *self
    }
}

/// The bit pattern of an `i16`, read as a `u16`.
pub open spec fn i16_bits(model: i16) -> int {
    if model >= 0 {
        model as int
    } else {
        model + 0x10000
    }
}

/// The `i16` with the bit pattern of a `u16`.
pub open spec fn i16_from_bits(bits: int) -> int {
    if bits <= i16::MAX {
        bits
    } else {
        bits - 0x10000
    }
}

impl IntoLean for i16 {
    open spec fn encodes(model: i16, obj: Obj) -> bool {
        obj == Obj::Scalar(i16_bits(model) as usize)
    }

    fn into_lean(self) -> (obj: Obj) {
        if self >= 0 {
            Obj::Scalar(self as usize)
        } else {
            Obj::Scalar((self as i64 + 0x10000) as usize)
        }
    }
}

impl TryFromLean for i16 {
    open spec fn decoded(obj: Obj) -> Result<i16, Seq<char>> {
        match scalar_of(obj, "i16"@) {
            Ok(payload) => if payload <= u16::MAX {
                Ok(i16_from_bits(payload as int) as i16)
            } else {
                Err(out_of_range_text("i16"@))
            },
            Err(message) => Err(message),
        }
    }

    fn try_from_lean(obj: Obj) -> (r: LeanResult<i16>) {
        match require_scalar(&obj, "i16") {
            Ok(payload) => if payload <= i16::MAX as usize {
                Ok(payload as i16)
            } else if payload <= u16::MAX as usize {
                Ok((payload as i64 - 0x10000) as i16)
            } else {
                Err(out_of_range("i16"))
            },
            Err(err) => Err(err),
        }
    }
}

impl LeanRoundTrip for i16 {
    proof fn round_trip(model: i16, obj: Obj) {
    }
}

impl SealedAbi for i16 {

}

impl LeanAbi for i16 {
    type CRepr = i16;

    open spec fn c_repr() -> LeanExportAbiRepr {
        LeanExportAbiRepr::I16
    }

    open spec fn c_encodes(model: i16, c: i16) -> bool {
        c == model
    }

    open spec fn c_decoded(c: i16) -> Result<i16, Seq<char>> {
        Ok(c)
    }

    proof fn c_repr_is_that_of_the_type(arg: CArg) {
    }

    fn export_abi_repr() -> (r: LeanExportAbiRepr) {
        LeanExportAbiRepr::I16
    }

    fn into_c(self) -> (c: i16) {
        self
    }

    fn from_c(c: i16) -> (r: LeanResult<i16>) {
        Ok(c)
    }
}

impl LeanAbiRoundTrip for i16 {
    proof fn c_round_trip(model: i16, c: i16) {
    }
}

impl LeanModel for i32 {
    type Model = i32;

    open spec fn model(&self) -> i32 {
        *self
    }
}

/// The bit pattern of an `i32`, read as a `u32`.
pub open spec fn i32_bits(model: i32) -> int {
    if model >= 0 {
        model as int
    } else {
        model + 0x100000000
    }
}

/// The `i32` with the bit pattern of a `u32`.
pub open spec fn i32_from_bits(bits: int) -> int {
    if bits <= i32::MAX {
        bits
    } else {
        bits - 0x100000000
    }
}

impl IntoLean for i32 {
    open spec fn encodes(model: i32, obj: Obj) -> bool {
        obj == Obj::Scalar(i32_bits(model) as usize)
    }

    fn into_lean(self) -> (obj: Obj) {
        if self >= 0 {
            Obj::Scalar(self as usize)
        } else {
            Obj::Scalar((self as i64 + 0x100000000) as usize)
        }
    }
}

impl TryFromLean for i32 {
    open spec fn decoded(obj: Obj) -> Result<i32, Seq<char>> {
        match scalar_of(obj, "i32"@) {
            Ok(payload) => if payload <= u32::MAX {
                Ok(i32_from_bits(payload as int) as i32)
            } else {
                Err(out_of_range_text("i32"@))
            },
            Err(message) => Err(message),
        }
    }

    fn try_from_lean(obj: Obj) -> (r: LeanResult<i32>) {
        match require_scalar(&obj, "i32") {
            Ok(payload) => if payload <= i32::MAX as usize {
                Ok(payload as i32)
            } else if payload <= u32::MAX as usize {
                Ok((payload as i64 - 0x100000000) as i32)
            } else {
                Err(out_of_range("i32"))
            },
            Err(err) => Err(err),
        }
    }
}

impl LeanRoundTrip for i32 {
    proof fn round_trip(model: i32, obj: Obj) {
    }
}

impl SealedAbi for i32 {

}

impl LeanAbi for i32 {
    type CRepr = i32;

    open spec fn c_repr() -> LeanExportAbiRepr {
        LeanExportAbiRepr::I32
    }

    open spec fn c_encodes(model: i32, c: i32) -> bool {
        c == model
    }

    open spec fn c_decoded(c: i32) -> Result<i32, Seq<char>> {
        Ok(c)
    }

    proof fn c_repr_is_that_of_the_type(arg: CArg) {
    }

    fn export_abi_repr() -> (r: LeanExportAbiRepr) {
        LeanExportAbiRepr::I32
    }

    fn into_c(self) -> (c: i32) {
        self
    }

    fn from_c(c: i32) -> (r: LeanResult<i32>) {
        Ok(c)
    }
}

impl LeanAbiRoundTrip for i32 {
    proof fn c_round_trip(model: i32, c: i32) {
    }
}

impl LeanModel for u64 {
    type Model = u64;

    open spec fn model(&self) -> u64 {
        *self
    }
}

impl IntoLean for u64 {
    open spec fn encodes(model: u64, obj: Obj) -> bool {
        boxes_bits(obj, model)
    }

    fn into_lean(self) -> (obj: Obj) {
        box_bits(self)
    }
}

impl TryFromLean for u64 {
    open spec fn decoded(obj: Obj) -> Result<u64, Seq<char>> {
        boxed_bits_of(obj, "u64"@)
    }

    fn try_from_lean(obj: Obj) -> (r: LeanResult<u64>) {
        require_boxed_bits(&obj, "u64")
    }
}

impl LeanRoundTrip for u64 {
    proof fn round_trip(model: u64, obj: Obj) {
        lemma_boxed_bits(obj, model, "u64"@);
    }
}

impl SealedAbi for u64 {

}

impl LeanAbi for u64 {
    type CRepr = u64;

    open spec fn c_repr() -> LeanExportAbiRepr {
        LeanExportAbiRepr::U64
    }

    open spec fn c_encodes(model: u64, c: u64) -> bool {
        c == model
    }

    open spec fn c_decoded(c: u64) -> Result<u64, Seq<char>> {
        Ok(c)
    }

    proof fn c_repr_is_that_of_the_type(arg: CArg) {
    }

    fn export_abi_repr() -> (r: LeanExportAbiRepr) {
        LeanExportAbiRepr::U64
    }

    fn into_c(self) -> (c: u64) {
        self
    }

    fn from_c(c: u64) -> (r: LeanResult<u64>) {
        Ok(c)
    }
}

impl LeanAbiRoundTrip for u64 {
    proof fn c_round_trip(model: u64, c: u64) {
    }
}

impl LeanModel for usize {
    type Model = usize;

    open spec fn model(&self) -> usize {
        *self
    }
}

impl IntoLean for usize {
    open spec fn encodes(model: usize, obj: Obj) -> bool {
        boxes_bits(obj, model as u64)
    }

    fn into_lean(self) -> (obj: Obj) {
        box_bits(self as u64)
    }
}

impl TryFromLean for usize {
    open spec fn decoded(obj: Obj) -> Result<usize, Seq<char>> {
        match boxed_bits_of(obj, "usize"@) {
            Ok(bits) => if bits <= usize::MAX {
                Ok(bits as usize)
            } else {
                Err(out_of_range_text("usize"@))
            },
            Err(message) => Err(message),
        }
    }

    fn try_from_lean(obj: Obj) -> (r: LeanResult<usize>) {
        match require_boxed_bits(&obj, "usize") {
            Ok(bits) => if bits <= usize::MAX as u64 {
                Ok(bits as usize)
            } else {
                Err(out_of_range("usize"))
            },
            Err(err) => Err(err),
        }
    }
}

impl LeanRoundTrip for usize {
    proof fn round_trip(model: usize, obj: Obj) {
        lemma_boxed_bits(obj, model as u64, "usize"@);
    }
}

impl SealedAbi for usize {

}

impl LeanAbi for usize {
    type CRepr = usize;

    open spec fn c_repr() -> LeanExportAbiRepr {
        LeanExportAbiRepr::Usize
    }

    open spec fn c_encodes(model: usize, c: usize) -> bool {
        c == model
    }

    open spec fn c_decoded(c: usize) -> Result<usize, Seq<char>> {
        Ok(c)
    }

    proof fn c_repr_is_that_of_the_type(arg: CArg) {
    }

    fn export_abi_repr() -> (r: LeanExportAbiRepr) {
        LeanExportAbiRepr::Usize
    }

    fn into_c(self) -> (c: usize) {
        self
    }

    fn from_c(c: usize) -> (r: LeanResult<usize>) {
        Ok(c)
    }
}

impl LeanAbiRoundTrip for usize {
    proof fn c_round_trip(model: usize, c: usize) {
    }
}

impl LeanModel for i64 {
    type Model = i64;

    open spec fn model(&self) -> i64 {
        *self
    }
}

/// The bit pattern of an `i64`, read as a `u64`.
pub open spec fn i64_bits(model: i64) -> int {
    if model >= 0 {
        model as int
    } else {
        model + 0x1_0000_0000_0000_0000
    }
}

/// The `i64` with the bit pattern of a `u64`.
pub open spec fn i64_from_bits(bits: int) -> int {
    if bits <= i64::MAX {
        bits
    } else {
        bits - 0x1_0000_0000_0000_0000
    }
}

impl IntoLean for i64 {
    open spec fn encodes(model: i64, obj: Obj) -> bool {
        boxes_bits(obj, i64_bits(model) as u64)
    }

    fn into_lean(self) -> (obj: Obj) {
        if self >= 0 {
            box_bits(self as u64)
        } else {
            box_bits(u64::MAX - (-(self + 1)) as u64)
        }
    }
}

impl TryFromLean for i64 {
    open spec fn decoded(obj: Obj) -> Result<i64, Seq<char>> {
        match boxed_bits_of(obj, "i64"@) {
            Ok(bits) => Ok(i64_from_bits(bits as int) as i64),
            Err(message) => Err(message),
        }
    }

    fn try_from_lean(obj: Obj) -> (r: LeanResult<i64>) {
        match require_boxed_bits(&obj, "i64") {
            Ok(bits) => if bits <= i64::MAX as u64 {
                Ok(bits as i64)
            } else {
                Ok(-((u64::MAX - bits) as i64) - 1)
            },
            Err(err) => Err(err),
        }
    }
}

impl LeanRoundTrip for i64 {
    proof fn round_trip(model: i64, obj: Obj) {
        lemma_boxed_bits(obj, i64_bits(model) as u64, "i64"@);
    }
}

impl SealedAbi for i64 {

}

impl LeanAbi for i64 {
    type CRepr = i64;

    open spec fn c_repr() -> LeanExportAbiRepr {
        LeanExportAbiRepr::I64
    }

    open spec fn c_encodes(model: i64, c: i64) -> bool {
        c == model
    }

    open spec fn c_decoded(c: i64) -> Result<i64, Seq<char>> {
        Ok(c)
    }

    proof fn c_repr_is_that_of_the_type(arg: CArg) {
    }

    fn export_abi_repr() -> (r: LeanExportAbiRepr) {
        LeanExportAbiRepr::I64
    }

    fn into_c(self) -> (c: i64) {
        self
    }

    fn from_c(c: i64) -> (r: LeanResult<i64>) {
        Ok(c)
    }
}

impl LeanAbiRoundTrip for i64 {
    proof fn c_round_trip(model: i64, c: i64) {
    }
}

impl LeanModel for isize {
    type Model = isize;

    open spec fn model(&self) -> isize {
        *self
    }
}

/// The bit pattern of an `isize`, read as a `usize`.
pub open spec fn isize_bits(model: isize) -> int {
    if model >= 0 {
        model as int
    } else {
        model + usize::MAX + 1
    }
}

/// The `isize` with the bit pattern of a `usize`.
pub open spec fn isize_from_bits(bits: int) -> int {
    if bits <= isize::MAX {
        bits
    } else {
        bits - usize::MAX - 1
    }
}

impl IntoLean for isize {
    open spec fn encodes(model: isize, obj: Obj) -> bool {
        boxes_bits(obj, isize_bits(model) as u64)
    }

    fn into_lean(self) -> (obj: Obj) {
        if self >= 0 {
            box_bits(self as u64)
        } else {
            box_bits((usize::MAX - (-(self + 1)) as usize) as u64)
        }
    }
}

impl TryFromLean for isize {
    open spec fn decoded(obj: Obj) -> Result<isize, Seq<char>> {
        match boxed_bits_of(obj, "isize"@) {
            Ok(bits) => if bits <= usize::MAX {
                Ok(isize_from_bits(bits as int) as isize)
            } else {
                Err(out_of_range_text("isize"@))
            },
            Err(message) => Err(message),
        }
    }

    fn try_from_lean(obj: Obj) -> (r: LeanResult<isize>) {
        match require_boxed_bits(&obj, "isize") {
            Ok(bits) => if bits <= isize::MAX as u64 {
                Ok(bits as isize)
            } else if bits <= usize::MAX as u64 {
                Ok(-((usize::MAX - bits as usize) as isize) - 1)
            } else {
                Err(out_of_range("isize"))
            },
            Err(err) => Err(err),
        }
    }
}

impl LeanRoundTrip for isize {
    proof fn round_trip(model: isize, obj: Obj) {
        lemma_boxed_bits(obj, isize_bits(model) as u64, "isize"@);
    }
}

impl SealedAbi for isize {

}

impl LeanAbi for isize {
    type CRepr = isize;

    open spec fn c_repr() -> LeanExportAbiRepr {
        LeanExportAbiRepr::Isize
    }

    open spec fn c_encodes(model: isize, c: isize) -> bool {
        c == model
    }

    open spec fn c_decoded(c: isize) -> Result<isize, Seq<char>> {
        Ok(c)
    }

    proof fn c_repr_is_that_of_the_type(arg: CArg) {
    }

    fn export_abi_repr() -> (r: LeanExportAbiRepr) {
        LeanExportAbiRepr::Isize
    }

    fn into_c(self) -> (c: isize) {
        self
    }

    fn from_c(c: isize) -> (r: LeanResult<isize>) {
        Ok(c)
    }
}

impl LeanAbiRoundTrip for isize {
    proof fn c_round_trip(model: isize, c: isize) {
    }
}

impl LeanModel for char {
    type Model = char;

    open spec fn model(&self) -> char {
        *self
    }
}

impl IntoLean for char {
    open spec fn encodes(model: char, obj: Obj) -> bool {
        obj == Obj::Scalar((model as u32) as usize)
    }

    fn into_lean(self) -> (obj: Obj) {
        Obj::Scalar((self as u32) as usize)
    }
}

impl TryFromLean for char {
    open spec fn decoded(obj: Obj) -> Result<char, Seq<char>> {
        match scalar_of(obj, "char"@) {
            Ok(payload) => if payload <= u32::MAX {
                char_of(payload as u32)
            } else {
                Err(out_of_range_text("char"@))
            },
            Err(message) => Err(message),
        }
    }

    fn try_from_lean(obj: Obj) -> (r: LeanResult<char>) {
        match require_scalar(&obj, "char") {
            Ok(payload) => if payload <= u32::MAX as usize {
                char_from_code(payload as u32)
            } else {
                Err(out_of_range("char"))
            },
            Err(err) => Err(err),
        }
    }
}

impl LeanRoundTrip for char {
    proof fn round_trip(model: char, obj: Obj) {
        char_is_scalar(model);
        char_u32_cast(model, model as u32);
    }
}

impl SealedAbi for char {

}

impl LeanAbi for char {
    type CRepr = u32;

    open spec fn c_repr() -> LeanExportAbiRepr {
        LeanExportAbiRepr::U32
    }

    open spec fn c_encodes(model: char, c: u32) -> bool {
        c == model as u32
    }

    open spec fn c_decoded(c: u32) -> Result<char, Seq<char>> {
        char_of(c)
    }

    proof fn c_repr_is_that_of_the_type(arg: CArg) {
    }

    fn export_abi_repr() -> (r: LeanExportAbiRepr) {
        LeanExportAbiRepr::U32
    }

    fn into_c(self) -> (c: u32) {
        self as u32
    }

    fn from_c(c: u32) -> (r: LeanResult<char>) {
        char_from_code(c)
    }
}

impl LeanAbiRoundTrip for char {
    proof fn c_round_trip(model: char, c: u32) {
        char_is_scalar(model);
        char_u32_cast(model, model as u32);
    }
}

/// A Rust scalar is its own model, so that what is stated of models is stated of
/// the values themselves.
pub proof fn scalars_are_their_own_models(
    unit: (),
    truth: bool,
    ch: char,
    unsigned: (u8, u16, u32, u64, usize),
    signed: (i8, i16, i32, i64, isize),
)
    ensures
        unit.model() == unit,
        truth.model() == truth,
        ch.model() == ch,
        unsigned.0.model() == unsigned.0,
        unsigned.1.model() == unsigned.1,
        unsigned.2.model() == unsigned.2,
        unsigned.3.model() == unsigned.3,
        unsigned.4.model() == unsigned.4,
        signed.0.model() == signed.0,
        signed.1.model() == signed.1,
        signed.2.model() == signed.2,
        signed.3.model() == signed.3,
        signed.4.model() == signed.4,
{
}

/// `()`, truth values, characters and unsigned integers of up to 32 bits are boxed
/// as scalars whose payload is zero, zero or one, the code point, and the number.
pub proof fn narrow_scalars_are_boxed_as_they_are(
    truth: bool,
    ch: char,
    byte: u8,
    short: u16,
    word: u32,
    obj: Obj,
)
    ensures
        <() as IntoLean>::encodes((), obj) <==> (obj matches Obj::Scalar(p) && p == 0),
        <bool as IntoLean>::encodes(truth, obj) <==> (obj matches Obj::Scalar(p) && p == (
        if truth { 1int } else { 0int })),
        <char as IntoLean>::encodes(ch, obj) <==> (obj matches Obj::Scalar(p) && p == ch as int),
        <u8 as IntoLean>::encodes(byte, obj) <==> (obj matches Obj::Scalar(p) && p == byte),
        <u16 as IntoLean>::encodes(short, obj) <==> (obj matches Obj::Scalar(p) && p == short),
        <u32 as IntoLean>::encodes(word, obj) <==> (obj matches Obj::Scalar(p) && p == word),
{
    char_is_scalar(ch);
}

/// What is read from a scalar is the payload as it is, wherever the type has a
/// value of that number; what is no scalar, or has no such value, is refused. `()`
/// is read from every scalar.
pub proof fn narrow_scalars_are_read_as_they_are(obj: Obj)
    ensures
        <() as TryFromLean>::decoded(obj) is Ok <==> obj is Scalar,
        <bool as TryFromLean>::decoded(obj) is Ok <==> (obj matches Obj::Scalar(p) && p <= 1),
        <bool as TryFromLean>::decoded(obj) matches Ok(truth) ==> (truth <==> obj->Scalar_0 == 1),
        <u8 as TryFromLean>::decoded(obj) is Ok <==> (obj matches Obj::Scalar(p) && p < 0x100),
        <u8 as TryFromLean>::decoded(obj) matches Ok(n) ==> n == obj->Scalar_0,
        <u16 as TryFromLean>::decoded(obj) is Ok <==> (obj matches Obj::Scalar(p) && p < 0x1_0000),
        <u16 as TryFromLean>::decoded(obj) matches Ok(n) ==> n == obj->Scalar_0,
        <u32 as TryFromLean>::decoded(obj) is Ok <==> (obj matches Obj::Scalar(p) && p
            < 0x1_0000_0000),
        <u32 as TryFromLean>::decoded(obj) matches Ok(n) ==> n == obj->Scalar_0,
        <char as TryFromLean>::decoded(obj) is Ok <==> (obj matches Obj::Scalar(p) && (p < 0xd800
            || 0xe000 <= p < 0x11_0000)),
        <char as TryFromLean>::decoded(obj) matches Ok(ch) ==> ch as int == obj->Scalar_0,
{
}

/// Signed integers of up to 32 bits are boxed as scalars in two's complement: the
/// payload fits the width of the type and is congruent to the number modulo two to
/// that width, so that -1 has all bits of the width set.
pub proof fn signed_scalars_are_twos_complement(byte: i8, short: i16, word: i32, obj: Obj)
    ensures
        <i8 as IntoLean>::encodes(byte, obj) <==> (obj matches Obj::Scalar(p) && p < 0x100 && (p
            - byte) % 0x100 == 0),
        <i16 as IntoLean>::encodes(short, obj) <==> (obj matches Obj::Scalar(p) && p < 0x1_0000
            && (p - short) % 0x1_0000 == 0),
        <i32 as IntoLean>::encodes(word, obj) <==> (obj matches Obj::Scalar(p) && p
            < 0x1_0000_0000 && (p - word) % 0x1_0000_0000 == 0),
{
}

/// What is read as a signed integer of up to 32 bits from a scalar that fits the
/// width is congruent to the payload modulo two to the width; everything else is
/// refused.
pub proof fn signed_scalars_are_read_as_twos_complement(obj: Obj)
    ensures
        <i8 as TryFromLean>::decoded(obj) is Ok <==> (obj matches Obj::Scalar(p) && p < 0x100),
        <i8 as TryFromLean>::decoded(obj) matches Ok(n) ==> (obj->Scalar_0 - n) % 0x100 == 0,
        <i16 as TryFromLean>::decoded(obj) is Ok <==> (obj matches Obj::Scalar(p) && p < 0x1_0000),
        <i16 as TryFromLean>::decoded(obj) matches Ok(n) ==> (obj->Scalar_0 - n) % 0x1_0000 == 0,
        <i32 as TryFromLean>::decoded(obj) is Ok <==> (obj matches Obj::Scalar(p) && p
            < 0x1_0000_0000),
        <i32 as TryFromLean>::decoded(obj) matches Ok(n) ==> (obj->Scalar_0 - n) % 0x1_0000_0000
            == 0,
{
}

/// The number that eight bytes stand for, least significant first.
pub open spec fn little_endian(bytes: Seq<u8>) -> int {
    bytes[0] + 0x100 * bytes[1] + 0x1_0000 * bytes[2] + 0x100_0000 * bytes[3] + 0x1_0000_0000
        * bytes[4] + 0x100_0000_0000 * bytes[5] + 0x1_0000_0000_0000 * bytes[6]
        + 0x100_0000_0000_0000 * bytes[7]
}

/// Eight bytes are read with the least significant first.
pub proof fn lemma_little_endian_read(bytes: Seq<u8>)
    requires
        bytes.len() == 8,
    ensures
        spec_u64_from_le_bytes(bytes) == little_endian(bytes),
{
    let x = spec_u64_from_le_bytes(bytes);
    lemma_auto_spec_u64_to_from_le_bytes();
    assert(spec_u64_to_le_bytes(x) == bytes);
    lemma_little_endian_written(x);
}

proof fn lemma_little_endian_written(x: u64)
    ensures
        spec_u64_to_le_bytes(x).len() == 8,
        little_endian(spec_u64_to_le_bytes(x)) == x,
{
    spec_u64_to_le_bytes_to_open(x);
    assert({
        &&& x & 0xff < 256
        &&& (x >> 8) & 0xff < 256
        &&& (x >> 16) & 0xff < 256
        &&& (x >> 24) & 0xff < 256
        &&& (x >> 32) & 0xff < 256
        &&& (x >> 40) & 0xff < 256
        &&& (x >> 48) & 0xff < 256
        &&& (x >> 56) & 0xff < 256
        &&& x == (x & 0xff) + 0x100 * ((x >> 8) & 0xff) + 0x1_0000 * ((x >> 16) & 0xff)
            + 0x100_0000 * ((x >> 24) & 0xff) + 0x1_0000_0000 * ((x >> 32) & 0xff)
            + 0x100_0000_0000 * ((x >> 40) & 0xff) + 0x1_0000_0000_0000 * ((x >> 48) & 0xff)
            + 0x100_0000_0000_0000 * ((x >> 56) & 0xff)
    }) by (bit_vector);
}

/// Integers of 64 bits and of the width of a pointer are boxed as a constructor
/// with tag zero and no object fields, whose scalar fields are eight bytes, least
/// significant first. The bytes stand for the number itself where it is unsigned,
/// and for its two's complement in the width of its type where it is signed.
pub proof fn wide_scalars_are_boxed_in_little_endian(
    n: u64,
    size: usize,
    signed: i64,
    offset: isize,
    obj: Obj,
)
    ensures
        <u64 as IntoLean>::encodes(n, obj) ==> boxes_wide(obj) && little_endian(wide_bytes(obj))
            == n,
        <usize as IntoLean>::encodes(size, obj) ==> boxes_wide(obj) && little_endian(
            wide_bytes(obj),
        ) == size,
        <i64 as IntoLean>::encodes(signed, obj) ==> boxes_wide(obj) && (little_endian(
            wide_bytes(obj),
        ) - signed) % 0x1_0000_0000_0000_0000 == 0,
        <isize as IntoLean>::encodes(offset, obj) ==> boxes_wide(obj) && (little_endian(
            wide_bytes(obj),
        ) - offset) % (usize::MAX + 1) == 0 && little_endian(wide_bytes(obj)) <= usize::MAX,
{
    lemma_little_endian_written(n);
    lemma_little_endian_written(size as u64);
    lemma_little_endian_written(i64_bits(signed) as u64);
    lemma_little_endian_written(isize_bits(offset) as u64);
    if usize::BITS == 64 {
        assert(usize::MAX + 1 == 0x1_0000_0000_0000_0000);
    } else {
        assert(usize::MAX + 1 == 0x1_0000_0000);
    }
}

/// Whether an object is a constructor with tag zero, no object fields and eight
/// bytes of scalar fields.
pub open spec fn boxes_wide(obj: Obj) -> bool {
    obj matches Obj::Ctor(ctor) && ctor.tag == 0 && ctor.objects@.len() == 0
        && ctor.scalars@.len() == 8
}

/// The first eight bytes of a constructor's scalar fields.
pub open spec fn wide_bytes(obj: Obj) -> Seq<u8> {
    obj->Ctor_0.scalars@.take(8)
}

/// A wide integer is read from any constructor with eight bytes of scalar fields at
/// least, and from nothing else: it is the number that the first eight stand for,
/// least significant first, read as two's complement where the type is signed, and
/// refused where it does not fit the width of a pointer-sized type.
pub proof fn wide_scalars_are_read_in_little_endian(obj: Obj)
    ensures
        <u64 as TryFromLean>::decoded(obj) is Ok <==> (obj matches Obj::Ctor(ctor)
            && ctor.scalars@.len() >= 8),
        <u64 as TryFromLean>::decoded(obj) matches Ok(n) ==> n == little_endian(wide_bytes(obj)),
        <i64 as TryFromLean>::decoded(obj) is Ok <==> (obj matches Obj::Ctor(ctor)
            && ctor.scalars@.len() >= 8),
        <i64 as TryFromLean>::decoded(obj) matches Ok(n) ==> (little_endian(wide_bytes(obj)) - n)
            % 0x1_0000_0000_0000_0000 == 0,
        <usize as TryFromLean>::decoded(obj) is Ok <==> (obj matches Obj::Ctor(ctor)
            && ctor.scalars@.len() >= 8 && little_endian(wide_bytes(obj)) <= usize::MAX),
        <usize as TryFromLean>::decoded(obj) matches Ok(n) ==> n == little_endian(
            wide_bytes(obj),
        ),
        <isize as TryFromLean>::decoded(obj) is Ok <==> (obj matches Obj::Ctor(ctor)
            && ctor.scalars@.len() >= 8 && little_endian(wide_bytes(obj)) <= usize::MAX),
        <isize as TryFromLean>::decoded(obj) matches Ok(n) ==> (little_endian(wide_bytes(obj)) - n)
            % (usize::MAX + 1) == 0,
{
    if let Obj::Ctor(ctor) = obj {
        if ctor.scalars@.len() >= 8 {
            assert(ctor.scalars@.subrange(0, 8) =~= ctor.scalars@.take(8));
            lemma_little_endian_read(ctor.scalars@.take(8));
        }
    }
    if usize::BITS == 64 {
        assert(usize::MAX + 1 == 0x1_0000_0000_0000_0000);
    } else {
        assert(usize::MAX + 1 == 0x1_0000_0000);
    }
}

/// At the C boundary an integer is itself, a truth value is the byte zero or one,
/// a character is its code point, and `()` is the object that boxes it.
pub proof fn scalars_cross_the_boundary_unboxed(
    truth: bool,
    ch: char,
    unsigned: (u8, u16, u32, u64, usize),
    signed: (i8, i16, i32, i64, isize),
    object: Obj,
)
    ensures
        <() as LeanAbi>::c_encodes((), object) <==> (object matches Obj::Scalar(p) && p == 0),
        forall|c: u8| #[trigger]
            <bool as LeanAbi>::c_encodes(truth, c) <==> c == (if truth { 1int } else { 0int }),
        forall|c: u32| #[trigger] <char as LeanAbi>::c_encodes(ch, c) <==> c == ch as int,
        forall|c: u8| #[trigger] <u8 as LeanAbi>::c_encodes(unsigned.0, c) <==> c == unsigned.0,
        forall|c: u16| #[trigger] <u16 as LeanAbi>::c_encodes(unsigned.1, c) <==> c == unsigned.1,
        forall|c: u32| #[trigger] <u32 as LeanAbi>::c_encodes(unsigned.2, c) <==> c == unsigned.2,
        forall|c: u64| #[trigger] <u64 as LeanAbi>::c_encodes(unsigned.3, c) <==> c == unsigned.3,
        forall|c: usize| #[trigger]
            <usize as LeanAbi>::c_encodes(unsigned.4, c) <==> c == unsigned.4,
        forall|c: i8| #[trigger] <i8 as LeanAbi>::c_encodes(signed.0, c) <==> c == signed.0,
        forall|c: i16| #[trigger] <i16 as LeanAbi>::c_encodes(signed.1, c) <==> c == signed.1,
        forall|c: i32| #[trigger] <i32 as LeanAbi>::c_encodes(signed.2, c) <==> c == signed.2,
        forall|c: i64| #[trigger] <i64 as LeanAbi>::c_encodes(signed.3, c) <==> c == signed.3,
        forall|c: isize| #[trigger] <isize as LeanAbi>::c_encodes(signed.4, c) <==> c == signed.4,
{
    char_is_scalar(ch);
}

/// A result at the C boundary is itself where it is an integer, and is read by the
/// byte or the code point where it is a truth value or a character, which alone can
/// be refused.
pub proof fn scalars_come_back_unboxed(
    unsigned: (u8, u16, u32, u64, usize),
    signed: (i8, i16, i32, i64, isize),
)
    ensures
        <bool as LeanAbi>::c_decoded(unsigned.0) is Ok <==> unsigned.0 <= 1,
        <bool as LeanAbi>::c_decoded(unsigned.0) matches Ok(truth) ==> (truth <==> unsigned.0 == 1),
        <char as LeanAbi>::c_decoded(unsigned.2) is Ok <==> unsigned.2 < 0xd800 || 0xe000
            <= unsigned.2 < 0x11_0000,
        <char as LeanAbi>::c_decoded(unsigned.2) matches Ok(ch) ==> ch as int == unsigned.2,
        <u8 as LeanAbi>::c_decoded(unsigned.0) == Ok::<u8, Seq<char>>(unsigned.0),
        <u16 as LeanAbi>::c_decoded(unsigned.1) == Ok::<u16, Seq<char>>(unsigned.1),
        <u32 as LeanAbi>::c_decoded(unsigned.2) == Ok::<u32, Seq<char>>(unsigned.2),
        <u64 as LeanAbi>::c_decoded(unsigned.3) == Ok::<u64, Seq<char>>(unsigned.3),
        <usize as LeanAbi>::c_decoded(unsigned.4) == Ok::<usize, Seq<char>>(unsigned.4),
        <i8 as LeanAbi>::c_decoded(signed.0) == Ok::<i8, Seq<char>>(signed.0),
        <i16 as LeanAbi>::c_decoded(signed.1) == Ok::<i16, Seq<char>>(signed.1),
        <i32 as LeanAbi>::c_decoded(signed.2) == Ok::<i32, Seq<char>>(signed.2),
        <i64 as LeanAbi>::c_decoded(signed.3) == Ok::<i64, Seq<char>>(signed.3),
        <isize as LeanAbi>::c_decoded(signed.4) == Ok::<isize, Seq<char>>(signed.4),
{
}

/// What is refused is reported with what was expected, and with the tag that was found
/// where there is one.
pub proof fn refused_scalars_say_what_was_expected(obj: Obj, expected: Seq<char>, code: u32)
    ensures
        obj !is Scalar ==> scalar_of(obj, expected) == Err::<usize, Seq<char>>(
            "expected Lean "@ + expected + ", found object with tag "@ + decimal(
                obj.spec_tag() as nat,
            ),
        ),
        obj is Scalar ==> boxed_bits_of(obj, expected) == Err::<u64, Seq<char>>(
            "expected Lean "@ + expected + ", found scalar-tagged object"@,
        ),
        obj !is Scalar && obj !is Ctor ==> boxed_bits_of(obj, expected) == Err::<u64, Seq<char>>(
            "expected Lean "@ + expected + ", found object with tag "@ + decimal(
                obj.spec_tag() as nat,
            ),
        ),
        out_of_range_text(expected) == "Lean value does not fit Rust "@ + expected,
        0xd800 <= code < 0xe000 || code >= 0x11_0000 ==> char_of(code) == Err::<char, Seq<char>>(
            "Lean char "@ + hex(code as nat) + " is not a Unicode scalar value"@,
        ),
{
}

/// The texts of refusals, for every type that is expected.
pub proof fn refusals_name_what_was_expected(expected: Seq<char>, tag: u32)
    ensures
        wrong_kind_text(expected, tag) == "expected Lean "@ + expected
            + ", found object with tag "@ + decimal(tag as nat),
        wrong_kind_scalar_text(expected) == "expected Lean "@ + expected
            + ", found scalar-tagged object"@,
{
}

/// A payload that the type has no value for is refused by the name of the type.
pub proof fn payloads_out_of_range_name_the_type(payload: usize)
    ensures
        payload > 1 ==> <bool as TryFromLean>::decoded(Obj::Scalar(payload)) == Err::<
            bool,
            Seq<char>,
        >("Lean value does not fit Rust "@ + "bool"@),
        payload > 0xff ==> <u8 as TryFromLean>::decoded(Obj::Scalar(payload)) == Err::<
            u8,
            Seq<char>,
        >("Lean value does not fit Rust "@ + "u8"@),
        payload > 0xff ==> <i8 as TryFromLean>::decoded(Obj::Scalar(payload)) == Err::<
            i8,
            Seq<char>,
        >("Lean value does not fit Rust "@ + "i8"@),
        payload > 0xffff ==> <u16 as TryFromLean>::decoded(Obj::Scalar(payload)) == Err::<
            u16,
            Seq<char>,
        >("Lean value does not fit Rust "@ + "u16"@),
        payload > 0xffff ==> <i16 as TryFromLean>::decoded(Obj::Scalar(payload)) == Err::<
            i16,
            Seq<char>,
        >("Lean value does not fit Rust "@ + "i16"@),
        payload > 0xffff_ffff ==> <u32 as TryFromLean>::decoded(Obj::Scalar(payload)) == Err::<
            u32,
            Seq<char>,
        >("Lean value does not fit Rust "@ + "u32"@),
        payload > 0xffff_ffff ==> <i32 as TryFromLean>::decoded(Obj::Scalar(payload)) == Err::<
            i32,
            Seq<char>,
        >("Lean value does not fit Rust "@ + "i32"@),
        payload > 0xffff_ffff ==> <char as TryFromLean>::decoded(Obj::Scalar(payload)) == Err::<
            char,
            Seq<char>,
        >("Lean value does not fit Rust "@ + "char"@),
{
}

} // verus!
