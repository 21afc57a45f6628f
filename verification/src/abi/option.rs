//! `Option<T>` as Lean's `Option α`.
//!
//! Lean gives a constructor without fields the scalar form and a constructor
//! with fields the heap form: `none` is the scalar `0`, `some x` is a constructor
//! with tag 1 and the one field `x`.

use vstd::prelude::*;
use vstd::string::*;

use crate::abi::structure::{alloc_ctor_with_objects, ctor_shape_of, take_ctor_objects};
use crate::abi::traits::{
    IntoLean, LeanAbi, LeanAbiRoundTrip, LeanModel, LeanRoundTrip, SealedAbi, TryFromLean,
    conversion_error,
};
use crate::error::LeanResult;
use crate::module::args::CArg;
use crate::module::signature::LeanExportAbiRepr;
use crate::runtime::obj::Obj;
use crate::text::{cat2, decimal, decimal_string};

verus! {

/// Whether `obj` encodes the optional value with the given model.
pub open spec fn encodes_option<T: IntoLean>(model: Option<T::Model>, obj: Obj) -> bool {
    match model {
        None => obj == Obj::Scalar(0),
        Some(inner) => obj matches Obj::Ctor(ctor) && ctor.tag == 1 && ctor.objects@.len() == 1
            && ctor.scalars@.len() == 0 && T::encodes(inner, ctor.objects@[0]),
    }
}

/// The model of the optional value that `obj` encodes, or why it encodes none.
pub open spec fn decoded_option<T: TryFromLean>(obj: Obj) -> Result<Option<T::Model>, Seq<char>> {
    match obj {
        Obj::Scalar(payload) => if payload == 0 {
            Ok(None)
        } else {
            Err(
                "expected Lean Option.none (scalar tag 0), found scalar payload "@ + decimal(
                    payload as nat,
                ),
            )
        },
        Obj::Ctor(ctor) => if ctor.tag == 1 {
            match ctor_shape_of(obj, 1, 1, "Option::some"@) {
                Ok(_) => match T::decoded(ctor.objects@[0]) {
                    Ok(inner) => Ok(Some(inner)),
                    Err(message) => Err(message),
                },
                Err(message) => Err(message),
            }
        } else {
            Err(
                "expected Lean Option.some ctor (tag 1), found heap ctor with tag "@ + decimal(
                    ctor.tag as nat,
                ),
            )
        },
        _ => Err(
            "expected Lean Option ctor or scalar tag, found object with tag "@ + decimal(
                obj.spec_tag() as nat,
            ),
        ),
    }
}

impl<T: LeanModel> LeanModel for Option<T> {
    type Model = Option<T::Model>;

    open spec fn model(&self) -> Option<T::Model> {
        match *self {
            Some(value) => Some(value.model()),
            None => None,
        }
    }
}

impl<T: IntoLean> IntoLean for Option<T> {
    open spec fn encodes(model: Option<T::Model>, obj: Obj) -> bool {
        encodes_option::<T>(model, obj)
    }

    fn into_lean(self) -> (obj: Obj) {
        match self {
            None => Obj::Scalar(0),
            Some(value) => alloc_ctor_with_objects(1, vec![value.into_lean()]),
        }
    }
}

impl<T: TryFromLean> TryFromLean for Option<T> {
    open spec fn decoded(obj: Obj) -> Result<Option<T::Model>, Seq<char>> {
        decoded_option::<T>(obj)
    }

    fn try_from_lean(obj: Obj) -> (r: LeanResult<Option<T>>) {
        let tag: u8 = match &obj {
            Obj::Scalar(payload) => {
                return if *payload == 0 {
                    Ok(None)
                } else {
                    Err(
                        conversion_error(
                            cat2(
                                "expected Lean Option.none (scalar tag 0), found scalar payload ",
                                decimal_string(*payload as u64).as_str(),
                            ),
                        ),
                    )
                };
            },
            Obj::Ctor(ctor) => ctor.tag,
            _ => {
                return Err(
                    conversion_error(
                        cat2(
                            "expected Lean Option ctor or scalar tag, found object with tag ",
                            decimal_string(obj.heap_tag() as u64).as_str(),
                        ),
                    ),
                );
            },
        };
        if tag != 1 {
            return Err(
                conversion_error(
                    cat2(
                        "expected Lean Option.some ctor (tag 1), found heap ctor with tag ",
                        decimal_string(tag as u64).as_str(),
                    ),
                ),
            );
        }
        let mut fields: Vec<Obj> = match take_ctor_objects(obj, 1, 1, "Option::some") {
            Ok(fields) => fields,
            Err(err) => {
                return Err(err);
            },
        };
        match T::try_from_lean(fields.remove(0)) {
            Ok(value) => Ok(Some(value)),
            Err(err) => Err(err),
        }
    }
}

impl<T: LeanRoundTrip> LeanRoundTrip for Option<T> {
    proof fn round_trip(model: Option<T::Model>, obj: Obj) {
        match (model, obj) {
            (Some(inner), Obj::Ctor(ctor)) => {
                T::round_trip(inner, ctor.objects@[0]);
            },
            _ => {},
        }
    }
}

impl<T> SealedAbi for Option<T> {

}

impl<T: IntoLean + TryFromLean> LeanAbi for Option<T> {
    type CRepr = Obj;

    open spec fn c_repr() -> LeanExportAbiRepr {
        LeanExportAbiRepr::LeanObject
    }

    open spec fn c_encodes(model: Option<T::Model>, c: Obj) -> bool {
        encodes_option::<T>(model, c)
    }

    open spec fn c_decoded(c: Obj) -> Result<Option<T::Model>, Seq<char>> {
        decoded_option::<T>(c)
    }

    proof fn c_repr_is_that_of_the_type(arg: CArg) {
    }

    fn export_abi_repr() -> (r: LeanExportAbiRepr) {
        LeanExportAbiRepr::LeanObject
    }

    fn into_c(self) -> (c: Obj) {
        self.into_lean()
    }

    fn from_c(c: Obj) -> (r: LeanResult<Option<T>>) {
        <Option<T> as TryFromLean>::try_from_lean(c)
    }
}

impl<T: LeanRoundTrip> LeanAbiRoundTrip for Option<T> {
    proof fn c_round_trip(model: Option<T::Model>, c: Obj) {
        <Option<T> as LeanRoundTrip>::round_trip(model, c);
    }
}

/// `None` is the scalar zero, and `Some` a constructor with tag one whose one field is
/// the value.
pub proof fn options_have_two_forms<T: IntoLean>(value: T, obj: Obj)
    ensures
        <Option<T> as IntoLean>::encodes(None::<T>.model(), obj) <==> obj == Obj::Scalar(0),
        <Option<T> as IntoLean>::encodes(Some(value).model(), obj) <==> (obj matches Obj::Ctor(
            ctor,
        ) && ctor.tag == 1 && ctor.scalars@.len() == 0 && ctor.objects@.len() == 1 && T::encodes(
            value.model(),
            ctor.objects@[0],
        )),
{
}

/// `None` is read from the scalar zero alone, and `Some` from a constructor with tag
/// one and one field that is read as the value; everything else is refused.
pub proof fn options_are_read_from_two_forms<T: TryFromLean>(obj: Obj)
    ensures
        <Option<T> as TryFromLean>::decoded(obj) == Ok::<Option<T::Model>, Seq<char>>(None) <==> obj
            == Obj::Scalar(0),
        <Option<T> as TryFromLean>::decoded(obj) matches Ok(Some(inner)) ==> (obj matches Obj::Ctor(
            ctor,
        ) && ctor.tag == 1 && ctor.objects@.len() == 1 && T::decoded(ctor.objects@[0]) == Ok::<
            T::Model,
            Seq<char>,
        >(inner)),
        (obj matches Obj::Ctor(ctor) && ctor.tag == 1 && ctor.objects@.len() == 1 && T::decoded(
            ctor.objects@[0],
        ) is Ok) ==> <Option<T> as TryFromLean>::decoded(obj) matches Ok(Some(_)),
{
}

/// At the C boundary an optional value is the object that boxes it.
pub proof fn options_cross_the_boundary_boxed<T: IntoLean + TryFromLean>(
    value: Option<T>,
    obj: Obj,
)
    ensures
        <Option<T> as LeanAbi>::c_encodes(value.model(), obj) <==> <Option<
            T,
        > as IntoLean>::encodes(value.model(), obj),
        <Option<T> as LeanAbi>::c_decoded(obj) == <Option<T> as TryFromLean>::decoded(obj),
{
}

/// An optional value has one way of being read, wherever it is read.
pub proof fn options_are_read_alike<T: TryFromLean>(obj: Obj)
    ensures
        decoded_option::<T>(obj) == <Option<T> as TryFromLean>::decoded(obj),
        obj matches Obj::Scalar(payload) ==> (payload != 0 ==> decoded_option::<T>(obj) is Err),
        obj matches Obj::Ctor(ctor) ==> (ctor.tag != 1 ==> decoded_option::<T>(obj) is Err),
        obj !is Scalar && obj !is Ctor ==> decoded_option::<T>(obj) is Err,
{
}

/// What is no optional value is refused by the payload or the tag that was found.
pub proof fn refused_options_show_what_was_found<T: TryFromLean>(obj: Obj)
    ensures
        obj matches Obj::Scalar(payload) ==> (payload != 0 ==> decoded_option::<T>(obj) == Err::<
            Option<T::Model>,
            Seq<char>,
        >(
            "expected Lean Option.none (scalar tag 0), found scalar payload "@ + decimal(
                payload as nat,
            ),
        )),
        obj matches Obj::Ctor(ctor) ==> (ctor.tag != 1 ==> decoded_option::<T>(obj) == Err::<
            Option<T::Model>,
            Seq<char>,
        >(
            "expected Lean Option.some ctor (tag 1), found heap ctor with tag "@ + decimal(
                ctor.tag as nat,
            ),
        )),
        obj matches Obj::Ctor(ctor) ==> (ctor.tag == 1 && ctor.objects@.len() == 1 ==> (T::decoded(
            ctor.objects@[0],
        ) matches Err(message) ==> decoded_option::<T>(obj) == Err::<Option<T::Model>, Seq<char>>(
            message,
        ))),
{
}

} // verus!
