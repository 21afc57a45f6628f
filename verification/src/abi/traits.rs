//! Conversion traits for first-order Lean values.
//!
//! [`IntoLean`] and [`TryFromLean`] convert between Rust values and boxed Lean
//! objects: container elements, structure fields, and everything that lives
//! behind an object pointer. [`LeanAbi`] converts between Rust values and the
//! representation that a compiled Lean function takes and returns at its C
//! boundary, which is unboxed for fixed-width scalars.
//!
//! Each trait states its conversion as a spec function on the model of the
//! Rust type. [`LeanRoundTrip`] is the law that decoding undoes encoding.

use vstd::prelude::*;

use crate::error::{
    HostStage, LeanDiagnosticCode, LeanError, LeanErrorView, LeanResult, abi_conversion_error,
    failures_say_stage_and_class, kept_of,
};
use crate::module::args::{CArg, CValue, representation};
use crate::module::signature::LeanExportAbiRepr;
use crate::runtime::obj::Obj;

verus! {

/// A Rust type with a mathematical model.
pub trait LeanModel: Sized {
    /// The model.
    type Model;

    /// The model of a value.
    spec fn model(&self) -> Self::Model;
}

/// Whether `r` is the outcome of a conversion that should give `wanted`: the
/// same value, or the conversion error with the wanted message.
pub open spec fn converts<T: LeanModel>(
    r: LeanResult<T>,
    wanted: Result<T::Model, Seq<char>>,
) -> bool {
    match wanted {
        Ok(model) => r matches Ok(value) && value.model() == model,
        Err(message) => r matches Err(err) && err@ == abi_conversion_error(message),
    }
}

/// Whether `r` is the outcome of a reading that should give `wanted`: the same
/// value, or the conversion error with the wanted message.
pub open spec fn reads<T>(r: LeanResult<T>, wanted: Result<T, Seq<char>>) -> bool {
    match wanted {
        Ok(value) => r == Ok::<T, LeanError>(value),
        Err(message) => r matches Err(err) && err@ == abi_conversion_error(message),
    }
}

/// Moves a Rust value into a Lean object.
pub trait IntoLean: LeanModel {
    /// Whether `obj` is an encoding of the value with the given model.
    spec fn encodes(model: Self::Model, obj: Obj) -> bool;

    /// Encodes the value.
    fn into_lean(self) -> (obj: Obj)
        ensures
            Self::encodes(self.model(), obj),
    ;
}

/// Decodes a Lean object into a Rust value.
pub trait TryFromLean: LeanModel {
    /// The model of the value that `obj` decodes to, or the message of the
    /// conversion error.
    spec fn decoded(obj: Obj) -> Result<Self::Model, Seq<char>>;

    /// Decodes the object, which is consumed either way.
    fn try_from_lean(obj: Obj) -> (r: LeanResult<Self>)
        ensures
            converts(r, Self::decoded(obj)),
    ;
}

/// Decoding gives back what was encoded.
pub trait LeanRoundTrip: IntoLean + TryFromLean {
    /// Every encoding of a value decodes to that value.
    proof fn round_trip(model: Self::Model, obj: Obj)
        requires
            Self::encodes(model, obj),
        ensures
            Self::decoded(obj) == Ok::<Self::Model, Seq<char>>(model),
    ;
}

/// An object encodes at most one value of a type.
pub proof fn encodings_are_unambiguous<T: LeanRoundTrip>(a: T::Model, b: T::Model, obj: Obj)
    requires
        T::encodes(a, obj),
        T::encodes(b, obj),
    ensures
        a == b,
{
    T::round_trip(a, obj);
    T::round_trip(b, obj);
}

/// Builds a conversion error.
pub fn conversion_error(message: String) -> (r: LeanError)
    ensures
        r@ == abi_conversion_error(message@),
{
    LeanError::abi_conversion(message)
}

/// Marks the types whose representation at the C boundary is known.
pub trait SealedAbi {

}

/// A type's representation at the C boundary of a compiled Lean function.
pub trait LeanAbi: LeanModel + SealedAbi {
    /// The representation.
    type CRepr: CValue;

    /// The representation's name in export signatures.
    spec fn c_repr() -> LeanExportAbiRepr;

    /// Whether `c` represents the value with the given model.
    spec fn c_encodes(model: Self::Model, c: Self::CRepr) -> bool;

    /// The model of the value that `c` represents, or the message of the
    /// conversion error.
    spec fn c_decoded(c: Self::CRepr) -> Result<Self::Model, Seq<char>>;

    /// The name is that of the representation's own type.
    proof fn c_repr_is_that_of_the_type(arg: CArg)
        requires
            <Self::CRepr as CValue>::held_by(arg) is Some,
        ensures
            representation(arg) == Self::c_repr(),
    ;

    /// The representation's name in export signatures.
    fn export_abi_repr() -> (r: LeanExportAbiRepr)
        ensures
            r == Self::c_repr(),
    ;

    /// Encodes the value as an argument.
    fn into_c(self) -> (c: Self::CRepr)
        ensures
            Self::c_encodes(self.model(), c),
    ;

    /// Decodes a result.
    fn from_c(c: Self::CRepr) -> (r: LeanResult<Self>)
        ensures
            converts(r, Self::c_decoded(c)),
    ;
}

/// Decoding at the C boundary gives back what was encoded.
pub trait LeanAbiRoundTrip: LeanAbi {
    /// Every representation of a value decodes to that value.
    proof fn c_round_trip(model: Self::Model, c: Self::CRepr)
        requires
            Self::c_encodes(model, c),
        ensures
            Self::c_decoded(c) == Ok::<Self::Model, Seq<char>>(model),
    ;
}

impl LeanModel for Obj {
    type Model = Obj;

    open spec fn model(&self) -> Obj {
        *self
    }
}

impl TryFromLean for Obj {
    open spec fn decoded(obj: Obj) -> Result<Obj, Seq<char>> {
        Ok(obj)
    }

    fn try_from_lean(obj: Obj) -> (r: LeanResult<Obj>) {
        Ok(obj)
    }
}

impl SealedAbi for Obj {

}

impl LeanAbi for Obj {
    type CRepr = Obj;

    open spec fn c_repr() -> LeanExportAbiRepr {
        LeanExportAbiRepr::LeanObject
    }

    open spec fn c_encodes(model: Obj, c: Obj) -> bool {
        c == model
    }

    open spec fn c_decoded(c: Obj) -> Result<Obj, Seq<char>> {
        Ok(c)
    }

    proof fn c_repr_is_that_of_the_type(arg: CArg) {
    }

    fn export_abi_repr() -> (r: LeanExportAbiRepr) {
        LeanExportAbiRepr::LeanObject
    }

    fn into_c(self) -> (c: Obj) {
        self
    }

    fn from_c(c: Obj) -> (r: LeanResult<Obj>) {
        Ok(c)
    }
}

impl LeanAbiRoundTrip for Obj {
    proof fn c_round_trip(model: Obj, c: Obj) {
    }
}

/// A reading succeeds where it should, with the value that it should give, and fails
/// where it should, as a conversion that keeps the message up to the limit.
pub proof fn readings_are_faithful<T>(r: LeanResult<T>, wanted: Result<T, Seq<char>>)
    requires
        reads(r, wanted),
    ensures
        wanted matches Ok(value) ==> (r matches Ok(got) && got == value),
        wanted matches Err(text) ==> (r matches Err(err) && (err@ matches LeanErrorView::Host {
            stage,
            code,
            message,
        } && stage == HostStage::Conversion && code == LeanDiagnosticCode::AbiConversion
            && kept_of(text, message))),
{
    if let Err(text) = wanted {
        failures_say_stage_and_class(text);
    }
}

/// A conversion succeeds where it should, with a value of the model that it should
/// give, and fails where it should, keeping the message up to the limit.
pub proof fn conversions_are_faithful<T: LeanModel>(
    r: LeanResult<T>,
    wanted: Result<T::Model, Seq<char>>,
)
    requires
        converts(r, wanted),
    ensures
        wanted matches Ok(model) ==> (r matches Ok(got) && got.model() == model),
        wanted matches Err(text) ==> (r matches Err(err) && (err@ matches LeanErrorView::Host {
            stage,
            code,
            message,
        } && stage == HostStage::Conversion && code == LeanDiagnosticCode::AbiConversion
            && kept_of(text, message))),
{
    if let Err(text) = wanted {
        failures_say_stage_and_class(text);
    }
}

/// An object is its own model, and passes the boundary as it is in both directions.
pub proof fn objects_pass_as_they_are(a: Obj, b: Obj)
    ensures
        a.model() == a,
        <Obj as TryFromLean>::decoded(a) == Ok::<Obj, Seq<char>>(a),
        <Obj as LeanAbi>::c_encodes(a, b) <==> a == b,
        <Obj as LeanAbi>::c_decoded(a) == Ok::<Obj, Seq<char>>(a),
{
}

} // verus!
