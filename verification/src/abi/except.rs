//! `Except<E, T>` and `Result<T, E>` as Lean's `Except ε α`.
//!
//! The constructors stand in Lean's declaration order: `error` has tag 0 and
//! `ok` has tag 1, each with one field. An `Except` is a value like any other; it
//! is not the error channel of this library.

use vstd::prelude::*;
use vstd::std_specs::convert::{FromSpec, FromSpecImpl};
use vstd::string::*;

use crate::abi::structure::{
    alloc_ctor_with_objects, constructors_go_by_tag_and_fields, ctor_shape_of, ctor_tag,
    ctor_tag_of, take_ctor_objects,
};
use crate::abi::traits::{
    IntoLean, LeanAbi, LeanAbiRoundTrip, LeanModel, LeanRoundTrip, SealedAbi, TryFromLean,
    conversion_error,
};
use crate::error::LeanResult;
use crate::module::args::CArg;
use crate::module::signature::LeanExportAbiRepr;
use crate::runtime::obj::{Ctor, Obj};
use crate::text::{cat2, decimal, decimal_string};

verus! {

/// Lean's `Except`, in declaration order.
#[derive(Clone, Debug, PartialEq, Eq)]
pub enum Except<E, T> {
    /// `Except.error`.
    Error(E),
    /// `Except.ok`.
    Value(T),
}

impl<E, T> Except<E, T> {
    /// The same outcome as a `Result`.
    pub open spec fn spec_into_result(self) -> Result<T, E> {
        match self {
            Except::Value(value) => Ok(value),
            Except::Error(err) => Err(err),
        }
    }
}

/// An outcome as an `Except`.
pub open spec fn as_except<T, E>(result: Result<T, E>) -> Except<E, T> {
    match result {
        Ok(value) => Except::Value(value),
        Err(err) => Except::Error(err),
    }
}

impl<E, T> From<Except<E, T>> for Result<T, E> {
    fn from(value: Except<E, T>) -> (r: Result<T, E>) {
        match value {
            Except::Value(value) => Ok(value),
            Except::Error(err) => Err(err),
        }
    }
}

impl<E, T> FromSpecImpl<Except<E, T>> for Result<T, E> {
    open spec fn obeys_from_spec() -> bool {
        true
    }

    open spec fn from_spec(value: Except<E, T>) -> Result<T, E> {
        value.spec_into_result()
    }
}

impl<E, T> From<Result<T, E>> for Except<E, T> {
    fn from(value: Result<T, E>) -> (r: Except<E, T>) {
        match value {
            Ok(value) => Except::Value(value),
            Err(err) => Except::Error(err),
        }
    }
}

impl<E, T> FromSpecImpl<Result<T, E>> for Except<E, T> {
    open spec fn obeys_from_spec() -> bool {
        true
    }

    open spec fn from_spec(value: Result<T, E>) -> Except<E, T> {
        as_except(value)
    }
}

/// Converting an outcome there and back changes nothing.
pub proof fn except_and_result_convert_back<E, T>(outcome: Except<E, T>, result: Result<T, E>)
    ensures
        as_except(outcome.spec_into_result()) == outcome,
        as_except(result).spec_into_result() == result,
{
}

/// Whether `obj` is a constructor with the given tag and one field and no
/// scalar fields.
pub open spec fn one_field(obj: Obj, tag: u8) -> bool {
    obj matches Obj::Ctor(ctor) && ctor.tag == tag && ctor.objects@.len() == 1
        && ctor.scalars@.len() == 0
}

/// Whether `obj` encodes the outcome with the given model.
pub open spec fn encodes_except<E: IntoLean, T: IntoLean>(
    model: Except<E::Model, T::Model>,
    obj: Obj,
) -> bool {
    match model {
        Except::Error(err) => one_field(obj, 0) && E::encodes(err, obj->Ctor_0.objects@[0]),
        Except::Value(value) => one_field(obj, 1) && T::encodes(value, obj->Ctor_0.objects@[0]),
    }
}

/// The model of the outcome that `obj` encodes, or why it encodes none.
pub open spec fn decoded_except<E: TryFromLean, T: TryFromLean>(obj: Obj) -> Result<
    Except<E::Model, T::Model>,
    Seq<char>,
> {
    match ctor_tag_of(obj) {
        Err(message) => Err(message),
        Ok(tag) => if tag == 0 {
            match ctor_shape_of(obj, 0, 1, "Except::error"@) {
                Ok(ctor) => match E::decoded(ctor.objects@[0]) {
                    Ok(err) => Ok(Except::Error(err)),
                    Err(message) => Err(message),
                },
                Err(message) => Err(message),
            }
        } else if tag == 1 {
            match ctor_shape_of(obj, 1, 1, "Except::ok"@) {
                Ok(ctor) => match T::decoded(ctor.objects@[0]) {
                    Ok(value) => Ok(Except::Value(value)),
                    Err(message) => Err(message),
                },
                Err(message) => Err(message),
            }
        } else {
            Err(
                "expected Lean Except ctor (tag 0 = error, 1 = ok), found tag "@ + decimal(
                    tag as nat,
                ),
            )
        },
    }
}

impl<E: LeanModel, T: LeanModel> LeanModel for Except<E, T> {
    type Model = Except<E::Model, T::Model>;

    open spec fn model(&self) -> Except<E::Model, T::Model> {
        match *self {
            Except::Error(err) => Except::Error(err.model()),
            Except::Value(value) => Except::Value(value.model()),
        }
    }
}

impl<E: IntoLean, T: IntoLean> IntoLean for Except<E, T> {
    open spec fn encodes(model: Except<E::Model, T::Model>, obj: Obj) -> bool {
        encodes_except::<E, T>(model, obj)
    }

    fn into_lean(self) -> (obj: Obj) {
        match self {
            Except::Error(err) => alloc_ctor_with_objects(0, vec![err.into_lean()]),
            Except::Value(value) => alloc_ctor_with_objects(1, vec![value.into_lean()]),
        }
    }
}

impl<E: TryFromLean, T: TryFromLean> TryFromLean for Except<E, T> {
    open spec fn decoded(obj: Obj) -> Result<Except<E::Model, T::Model>, Seq<char>> {
        decoded_except::<E, T>(obj)
    }

    fn try_from_lean(obj: Obj) -> (r: LeanResult<Except<E, T>>) {
        match ctor_tag(&obj) {
            Err(err) => Err(err),
            Ok(0) => match take_ctor_objects(obj, 0, 1, "Except::error") {
                Ok(mut fields) => match E::try_from_lean(fields.remove(0)) {
                    Ok(err) => Ok(Except::Error(err)),
                    Err(err) => Err(err),
                },
                Err(err) => Err(err),
            },
            Ok(1) => match take_ctor_objects(obj, 1, 1, "Except::ok") {
                Ok(mut fields) => match T::try_from_lean(fields.remove(0)) {
                    Ok(value) => Ok(Except::Value(value)),
                    Err(err) => Err(err),
                },
                Err(err) => Err(err),
            },
            Ok(other) => Err(
                conversion_error(
                    cat2(
                        "expected Lean Except ctor (tag 0 = error, 1 = ok), found tag ",
                        decimal_string(other as u64).as_str(),
                    ),
                ),
            ),
        }
    }
}

impl<E: LeanRoundTrip, T: LeanRoundTrip> LeanRoundTrip for Except<E, T> {
    proof fn round_trip(model: Except<E::Model, T::Model>, obj: Obj) {
        match model {
            Except::Error(err) => {
                E::round_trip(err, obj->Ctor_0.objects@[0]);
            },
            Except::Value(value) => {
                T::round_trip(value, obj->Ctor_0.objects@[0]);
            },
        }
    }
}

impl<E, T> SealedAbi for Except<E, T> {

}

impl<E: IntoLean + TryFromLean, T: IntoLean + TryFromLean> LeanAbi for Except<E, T> {
    type CRepr = Obj;

    open spec fn c_repr() -> LeanExportAbiRepr {
        LeanExportAbiRepr::LeanObject
    }

    open spec fn c_encodes(model: Except<E::Model, T::Model>, c: Obj) -> bool {
        encodes_except::<E, T>(model, c)
    }

    open spec fn c_decoded(c: Obj) -> Result<Except<E::Model, T::Model>, Seq<char>> {
        decoded_except::<E, T>(c)
    }

    proof fn c_repr_is_that_of_the_type(arg: CArg) {
    }

    fn export_abi_repr() -> (r: LeanExportAbiRepr) {
        LeanExportAbiRepr::LeanObject
    }

    fn into_c(self) -> (c: Obj) {
        self.into_lean()
    }

    fn from_c(c: Obj) -> (r: LeanResult<Except<E, T>>) {
        <Except<E, T> as TryFromLean>::try_from_lean(c)
    }
}

impl<E: LeanRoundTrip, T: LeanRoundTrip> LeanAbiRoundTrip for Except<E, T> {
    proof fn c_round_trip(model: Except<E::Model, T::Model>, c: Obj) {
        <Except<E, T> as LeanRoundTrip>::round_trip(model, c);
    }
}

/// The model of the outcome that `obj` encodes, or why it encodes none.
pub open spec fn decoded_result<T: TryFromLean, E: TryFromLean>(obj: Obj) -> Result<
    Result<T::Model, E::Model>,
    Seq<char>,
> {
    match decoded_except::<E, T>(obj) {
        Ok(outcome) => Ok(outcome.spec_into_result()),
        Err(message) => Err(message),
    }
}

impl<T: LeanModel, E: LeanModel> LeanModel for Result<T, E> {
    type Model = Result<T::Model, E::Model>;

    open spec fn model(&self) -> Result<T::Model, E::Model> {
        match *self {
            Ok(value) => Ok(value.model()),
            Err(err) => Err(err.model()),
        }
    }
}

impl<T: IntoLean, E: IntoLean> IntoLean for Result<T, E> {
    open spec fn encodes(model: Result<T::Model, E::Model>, obj: Obj) -> bool {
        encodes_except::<E, T>(as_except(model), obj)
    }

    fn into_lean(self) -> (obj: Obj) {
        Except::<E, T>::from(self).into_lean()
    }
}

impl<T: TryFromLean, E: TryFromLean> TryFromLean for Result<T, E> {
    open spec fn decoded(obj: Obj) -> Result<Result<T::Model, E::Model>, Seq<char>> {
        decoded_result::<T, E>(obj)
    }

    fn try_from_lean(obj: Obj) -> (r: LeanResult<Result<T, E>>) {
        match Except::<E, T>::try_from_lean(obj) {
            Ok(outcome) => Ok(Result::<T, E>::from(outcome)),
            Err(err) => Err(err),
        }
    }
}

impl<T: LeanRoundTrip, E: LeanRoundTrip> LeanRoundTrip for Result<T, E> {
    proof fn round_trip(model: Result<T::Model, E::Model>, obj: Obj) {
        <Except<E, T> as LeanRoundTrip>::round_trip(as_except(model), obj);
    }
}

impl<T, E> SealedAbi for Result<T, E> {

}

impl<T: IntoLean + TryFromLean, E: IntoLean + TryFromLean> LeanAbi for Result<T, E> {
    type CRepr = Obj;

    open spec fn c_repr() -> LeanExportAbiRepr {
        LeanExportAbiRepr::LeanObject
    }

    open spec fn c_encodes(model: Result<T::Model, E::Model>, c: Obj) -> bool {
        encodes_except::<E, T>(as_except(model), c)
    }

    open spec fn c_decoded(c: Obj) -> Result<Result<T::Model, E::Model>, Seq<char>> {
        decoded_result::<T, E>(c)
    }

    proof fn c_repr_is_that_of_the_type(arg: CArg) {
    }

    fn export_abi_repr() -> (r: LeanExportAbiRepr) {
        LeanExportAbiRepr::LeanObject
    }

    fn into_c(self) -> (c: Obj) {
        self.into_lean()
    }

    fn from_c(c: Obj) -> (r: LeanResult<Result<T, E>>) {
        <Result<T, E> as TryFromLean>::try_from_lean(c)
    }
}

impl<T: LeanRoundTrip, E: LeanRoundTrip> LeanAbiRoundTrip for Result<T, E> {
    proof fn c_round_trip(model: Result<T::Model, E::Model>, c: Obj) {
        <Result<T, E> as LeanRoundTrip>::round_trip(model, c);
    }
}

/// An outcome is a constructor with one field: an error has tag zero and holds the
/// error, a value has tag one and holds the value. A `Result` has the same form as the
/// `Except` of the same outcome.
pub proof fn outcomes_go_by_their_tag<E: IntoLean, T: IntoLean>(err: E, value: T, obj: Obj)
    ensures
        <Except<E, T> as IntoLean>::encodes(Except::<E, T>::Error(err).model(), obj) <==> (
        obj matches Obj::Ctor(ctor) && ctor.tag == 0 && ctor.scalars@.len() == 0
            && ctor.objects@.len() == 1 && E::encodes(err.model(), ctor.objects@[0])),
        <Except<E, T> as IntoLean>::encodes(Except::<E, T>::Value(value).model(), obj) <==> (
        obj matches Obj::Ctor(ctor) && ctor.tag == 1 && ctor.scalars@.len() == 0
            && ctor.objects@.len() == 1 && T::encodes(value.model(), ctor.objects@[0])),
        <Result<T, E> as IntoLean>::encodes(Err::<T, E>(err).model(), obj) <==> (
        obj matches Obj::Ctor(ctor) && ctor.tag == 0 && ctor.scalars@.len() == 0
            && ctor.objects@.len() == 1 && E::encodes(err.model(), ctor.objects@[0])),
        <Result<T, E> as IntoLean>::encodes(Ok::<T, E>(value).model(), obj) <==> (
        obj matches Obj::Ctor(ctor) && ctor.tag == 1 && ctor.scalars@.len() == 0
            && ctor.objects@.len() == 1 && T::encodes(value.model(), ctor.objects@[0])),
{
}

/// An outcome is read by its tag: zero and one field that is read as the error, one
/// and one field that is read as the value, and nothing else. A `Result` is read where
/// an `Except` is.
pub proof fn outcomes_are_read_by_their_tag<E: TryFromLean, T: TryFromLean>(obj: Obj)
    ensures
        <Except<E, T> as TryFromLean>::decoded(obj) is Ok <==> (obj matches Obj::Ctor(ctor)
            && ctor.objects@.len() == 1 && (ctor.tag == 0 && E::decoded(ctor.objects@[0]) is Ok
            || ctor.tag == 1 && T::decoded(ctor.objects@[0]) is Ok)),
        <Except<E, T> as TryFromLean>::decoded(obj) matches Ok(Except::Error(err)) ==> (
        obj matches Obj::Ctor(ctor) && ctor.tag == 0 && E::decoded(ctor.objects@[0]) == Ok::<
            E::Model,
            Seq<char>,
        >(err)),
        <Except<E, T> as TryFromLean>::decoded(obj) matches Ok(Except::Value(value)) ==> (
        obj matches Obj::Ctor(ctor) && ctor.tag == 1 && T::decoded(ctor.objects@[0]) == Ok::<
            T::Model,
            Seq<char>,
        >(value)),
        match <Except<E, T> as TryFromLean>::decoded(obj) {
            Ok(Except::Error(err)) => <Result<T, E> as TryFromLean>::decoded(obj) == Ok::<
                Result<T::Model, E::Model>,
                Seq<char>,
            >(Err(err)),
            Ok(Except::Value(value)) => <Result<T, E> as TryFromLean>::decoded(obj) == Ok::<
                Result<T::Model, E::Model>,
                Seq<char>,
            >(Ok(value)),
            Err(message) => <Result<T, E> as TryFromLean>::decoded(obj) == Err::<
                Result<T::Model, E::Model>,
                Seq<char>,
            >(message),
        },
{
    constructors_go_by_tag_and_fields(obj, 0, 1, "Except::error"@);
    constructors_go_by_tag_and_fields(obj, 1, 1, "Except::ok"@);
}

/// Success stays success and failure stays failure when an outcome is converted.
pub proof fn outcomes_keep_their_side<E, T>(err: E, value: T)
    ensures
        Except::<E, T>::Value(value).spec_into_result() == Ok::<T, E>(value),
        Except::<E, T>::Error(err).spec_into_result() == Err::<T, E>(err),
        as_except(Ok::<T, E>(value)) == Except::<E, T>::Value(value),
        as_except(Err::<T, E>(err)) == Except::<E, T>::Error(err),
{
}

/// At the C boundary an outcome is the object that boxes it.
pub proof fn outcomes_cross_the_boundary_boxed<
    E: IntoLean + TryFromLean,
    T: IntoLean + TryFromLean,
>(outcome: Except<E, T>, result: Result<T, E>, obj: Obj)
    ensures
        <Except<E, T> as LeanAbi>::c_encodes(outcome.model(), obj) <==> <Except<
            E,
            T,
        > as IntoLean>::encodes(outcome.model(), obj),
        <Except<E, T> as LeanAbi>::c_decoded(obj) == <Except<E, T> as TryFromLean>::decoded(obj),
        <Result<T, E> as LeanAbi>::c_encodes(result.model(), obj) <==> <Result<
            T,
            E,
        > as IntoLean>::encodes(result.model(), obj),
        <Result<T, E> as LeanAbi>::c_decoded(obj) == <Result<T, E> as TryFromLean>::decoded(obj),
{
}

/// An outcome has one way of being read, wherever it is read, and converting between
/// its two types keeps its side.
pub proof fn outcomes_are_read_alike<T: TryFromLean, E: TryFromLean>(obj: Obj)
    ensures
        decoded_result::<T, E>(obj) == <Result<T, E> as TryFromLean>::decoded(obj),
        decoded_except::<E, T>(obj) == <Except<E, T> as TryFromLean>::decoded(obj),
{
}

/// Converting with `From` keeps success as success and failure as failure.
pub proof fn conversions_keep_the_side<E, T>(err: E, value: T)
    ensures
        <Result<T, E> as FromSpec<Except<E, T>>>::from_spec(Except::Value(value)) == Ok::<T, E>(
            value,
        ),
        <Result<T, E> as FromSpec<Except<E, T>>>::from_spec(Except::Error(err)) == Err::<T, E>(
            err,
        ),
        <Except<E, T> as FromSpec<Result<T, E>>>::from_spec(Ok(value)) == Except::<E, T>::Value(
            value,
        ),
        <Except<E, T> as FromSpec<Result<T, E>>>::from_spec(Err(err)) == Except::<E, T>::Error(err),
{
}

/// An unknown tag is refused by the tag, and a field that is refused is reported as it
/// is.
pub proof fn refused_outcomes_show_what_was_found<E: TryFromLean, T: TryFromLean>(ctor: Ctor)
    ensures
        ctor.tag > 1 ==> decoded_except::<E, T>(Obj::Ctor(ctor)) == Err::<
            Except<E::Model, T::Model>,
            Seq<char>,
        >(
            "expected Lean Except ctor (tag 0 = error, 1 = ok), found tag "@ + decimal(
                ctor.tag as nat,
            ),
        ),
        ctor.tag == 0 && ctor.objects@.len() == 1 ==> (E::decoded(ctor.objects@[0]) matches Err(
            message,
        ) ==> decoded_except::<E, T>(Obj::Ctor(ctor)) == Err::<
            Except<E::Model, T::Model>,
            Seq<char>,
        >(message)),
        ctor.tag == 1 && ctor.objects@.len() == 1 ==> (T::decoded(ctor.objects@[0]) matches Err(
            message,
        ) ==> decoded_except::<E, T>(Obj::Ctor(ctor)) == Err::<
            Except<E::Model, T::Model>,
            Seq<char>,
        >(message)),
{
}

} // verus!
