//! Pairs and triples as Lean's `Prod`.
//!
//! A pair is the constructor `Prod.mk` with tag 0 and two fields; a triple
//! `(a, b, c)` is the pair `(a, (b, c))`.

use vstd::prelude::*;
use vstd::string::*;

use crate::abi::structure::{
    alloc_ctor_with_objects, constructors_go_by_tag_and_fields, ctor_shape_of, take_ctor_objects,
};
use crate::abi::traits::{
    IntoLean, LeanAbi, LeanAbiRoundTrip, LeanModel, LeanRoundTrip, SealedAbi, TryFromLean,
};
use crate::error::LeanResult;
use crate::module::args::CArg;
use crate::module::signature::LeanExportAbiRepr;
use crate::runtime::obj::Obj;

verus! {

/// Whether `obj` encodes the pair with the given model.
pub open spec fn encodes_pair<A: IntoLean, B: IntoLean>(
    model: (A::Model, B::Model),
    obj: Obj,
) -> bool {
    obj matches Obj::Ctor(ctor) && ctor.tag == 0 && ctor.objects@.len() == 2 && ctor.scalars@.len()
        == 0 && A::encodes(model.0, ctor.objects@[0]) && B::encodes(model.1, ctor.objects@[1])
}

/// The model of the pair that `obj` encodes, or why it encodes none.
pub open spec fn decoded_pair<A: TryFromLean, B: TryFromLean>(obj: Obj) -> Result<
    (A::Model, B::Model),
    Seq<char>,
> {
    match ctor_shape_of(obj, 0, 2, "Prod.mk"@) {
        Ok(ctor) => match A::decoded(ctor.objects@[0]) {
            Ok(a) => match B::decoded(ctor.objects@[1]) {
                Ok(b) => Ok((a, b)),
                Err(message) => Err(message),
            },
            Err(message) => Err(message),
        },
        Err(message) => Err(message),
    }
}

impl<A: LeanModel, B: LeanModel> LeanModel for (A, B) {
    type Model = (A::Model, B::Model);

    open spec fn model(&self) -> (A::Model, B::Model) {
        (self.0.model(), self.1.model())
    }
}

impl<A: IntoLean, B: IntoLean> IntoLean for (A, B) {
    open spec fn encodes(model: (A::Model, B::Model), obj: Obj) -> bool {
        encodes_pair::<A, B>(model, obj)
    }

    fn into_lean(self) -> (obj: Obj) {
        let (a, b) = self;
        alloc_ctor_with_objects(0, vec![a.into_lean(), b.into_lean()])
    }
}

impl<A: TryFromLean, B: TryFromLean> TryFromLean for (A, B) {
    open spec fn decoded(obj: Obj) -> Result<(A::Model, B::Model), Seq<char>> {
        decoded_pair::<A, B>(obj)
    }

    fn try_from_lean(obj: Obj) -> (r: LeanResult<(A, B)>) {
        match take_ctor_objects(obj, 0, 2, "Prod.mk") {
            Ok(mut fields) => {
                let second: Obj = fields.remove(1);
                let first: Obj = fields.remove(0);
                match A::try_from_lean(first) {
                    Ok(a) => match B::try_from_lean(second) {
                        Ok(b) => Ok((a, b)),
                        Err(err) => Err(err),
                    },
                    Err(err) => Err(err),
                }
            },
            Err(err) => Err(err),
        }
    }
}

impl<A: LeanRoundTrip, B: LeanRoundTrip> LeanRoundTrip for (A, B) {
    proof fn round_trip(model: (A::Model, B::Model), obj: Obj) {
        A::round_trip(model.0, obj->Ctor_0.objects@[0]);
        B::round_trip(model.1, obj->Ctor_0.objects@[1]);
    }
}

impl<A, B> SealedAbi for (A, B) {

}

impl<A: IntoLean + TryFromLean, B: IntoLean + TryFromLean> LeanAbi for (A, B) {
    type CRepr = Obj;

    open spec fn c_repr() -> LeanExportAbiRepr {
        LeanExportAbiRepr::LeanObject
    }

    open spec fn c_encodes(model: (A::Model, B::Model), c: Obj) -> bool {
        encodes_pair::<A, B>(model, c)
    }

    open spec fn c_decoded(c: Obj) -> Result<(A::Model, B::Model), Seq<char>> {
        decoded_pair::<A, B>(c)
    }

    proof fn c_repr_is_that_of_the_type(arg: CArg) {
    }

    fn export_abi_repr() -> (r: LeanExportAbiRepr) {
        LeanExportAbiRepr::LeanObject
    }

    fn into_c(self) -> (c: Obj) {
        self.into_lean()
    }

    fn from_c(c: Obj) -> (r: LeanResult<(A, B)>) {
        <(A, B) as TryFromLean>::try_from_lean(c)
    }
}

impl<A: LeanRoundTrip, B: LeanRoundTrip> LeanAbiRoundTrip for (A, B) {
    proof fn c_round_trip(model: (A::Model, B::Model), c: Obj) {
        <(A, B) as LeanRoundTrip>::round_trip(model, c);
    }
}

/// The model of the triple that `obj` encodes, or why it encodes none.
pub open spec fn decoded_triple<A: TryFromLean, B: TryFromLean, C: TryFromLean>(
    obj: Obj,
) -> Result<(A::Model, B::Model, C::Model), Seq<char>> {
    match decoded_pair::<A, (B, C)>(obj) {
        Ok(model) => Ok((model.0, model.1.0, model.1.1)),
        Err(message) => Err(message),
    }
}

impl<A: LeanModel, B: LeanModel, C: LeanModel> LeanModel for (A, B, C) {
    type Model = (A::Model, B::Model, C::Model);

    open spec fn model(&self) -> (A::Model, B::Model, C::Model) {
        (self.0.model(), self.1.model(), self.2.model())
    }
}

impl<A: IntoLean, B: IntoLean, C: IntoLean> IntoLean for (A, B, C) {
    open spec fn encodes(model: (A::Model, B::Model, C::Model), obj: Obj) -> bool {
        encodes_pair::<A, (B, C)>((model.0, (model.1, model.2)), obj)
    }

    fn into_lean(self) -> (obj: Obj) {
        let (a, b, c) = self;
        (a, (b, c)).into_lean()
    }
}

impl<A: TryFromLean, B: TryFromLean, C: TryFromLean> TryFromLean for (A, B, C) {
    open spec fn decoded(obj: Obj) -> Result<(A::Model, B::Model, C::Model), Seq<char>> {
        decoded_triple::<A, B, C>(obj)
    }

    fn try_from_lean(obj: Obj) -> (r: LeanResult<(A, B, C)>) {
        match <(A, (B, C)) as TryFromLean>::try_from_lean(obj) {
            Ok((a, (b, c))) => Ok((a, b, c)),
            Err(err) => Err(err),
        }
    }
}

impl<A: LeanRoundTrip, B: LeanRoundTrip, C: LeanRoundTrip> LeanRoundTrip for (A, B, C) {
    proof fn round_trip(model: (A::Model, B::Model, C::Model), obj: Obj) {
        <(A, (B, C)) as LeanRoundTrip>::round_trip((model.0, (model.1, model.2)), obj);
    }
}

impl<A, B, C> SealedAbi for (A, B, C) {

}

impl<
    A: IntoLean + TryFromLean,
    B: IntoLean + TryFromLean,
    C: IntoLean + TryFromLean,
> LeanAbi for (A, B, C) {
    type CRepr = Obj;

    open spec fn c_repr() -> LeanExportAbiRepr {
        LeanExportAbiRepr::LeanObject
    }

    open spec fn c_encodes(model: (A::Model, B::Model, C::Model), c: Obj) -> bool {
        encodes_pair::<A, (B, C)>((model.0, (model.1, model.2)), c)
    }

    open spec fn c_decoded(c: Obj) -> Result<(A::Model, B::Model, C::Model), Seq<char>> {
        decoded_triple::<A, B, C>(c)
    }

    proof fn c_repr_is_that_of_the_type(arg: CArg) {
    }

    fn export_abi_repr() -> (r: LeanExportAbiRepr) {
        LeanExportAbiRepr::LeanObject
    }

    fn into_c(self) -> (c: Obj) {
        self.into_lean()
    }

    fn from_c(c: Obj) -> (r: LeanResult<(A, B, C)>) {
        <(A, B, C) as TryFromLean>::try_from_lean(c)
    }
}

impl<A: LeanRoundTrip, B: LeanRoundTrip, C: LeanRoundTrip> LeanAbiRoundTrip for (A, B, C) {
    proof fn c_round_trip(model: (A::Model, B::Model, C::Model), c: Obj) {
        <(A, B, C) as LeanRoundTrip>::round_trip(model, c);
    }
}

/// A pair is a constructor with tag zero and the two components as its fields, the
/// first one first. A triple is the pair of its first component and the pair of the
/// other two.
pub proof fn components_are_fields_in_order<A: IntoLean, B: IntoLean, C: IntoLean>(
    a: A,
    b: B,
    c: C,
    obj: Obj,
)
    ensures
        <(A, B) as IntoLean>::encodes((a, b).model(), obj) <==> (obj matches Obj::Ctor(ctor)
            && ctor.tag == 0 && ctor.scalars@.len() == 0 && ctor.objects@.len() == 2 && A::encodes(
            a.model(),
            ctor.objects@[0],
        ) && B::encodes(b.model(), ctor.objects@[1])),
        <(A, B, C) as IntoLean>::encodes((a, b, c).model(), obj) <==> <(
            A,
            (B, C),
        ) as IntoLean>::encodes((a, (b, c)).model(), obj),
{
}

/// A pair is read from a constructor with tag zero and two fields whose fields are
/// read as the components, the first from the first field, and a component that is
/// refused first is reported first; a triple is read as the pair of its first component
/// and the pair of the other two.
pub proof fn fields_are_read_in_order<A: TryFromLean, B: TryFromLean, C: TryFromLean>(obj: Obj)
    ensures
        <(A, B) as TryFromLean>::decoded(obj) is Ok <==> (obj matches Obj::Ctor(ctor) && ctor.tag
            == 0 && ctor.objects@.len() == 2 && A::decoded(ctor.objects@[0]) is Ok && B::decoded(
            ctor.objects@[1],
        ) is Ok),
        <(A, B) as TryFromLean>::decoded(obj) matches Ok(pair) ==> A::decoded(
            obj->Ctor_0.objects@[0],
        ) == Ok::<A::Model, Seq<char>>(pair.0) && B::decoded(obj->Ctor_0.objects@[1]) == Ok::<
            B::Model,
            Seq<char>,
        >(pair.1),
        (obj matches Obj::Ctor(ctor) && ctor.tag == 0 && ctor.objects@.len() == 2) ==> (
        A::decoded(obj->Ctor_0.objects@[0]) matches Err(message) ==> <(
            A,
            B,
        ) as TryFromLean>::decoded(obj) == Err::<(A::Model, B::Model), Seq<char>>(message)),
        match <(A, (B, C)) as TryFromLean>::decoded(obj) {
            Ok((a, (b, c))) => <(A, B, C) as TryFromLean>::decoded(obj) == Ok::<
                (A::Model, B::Model, C::Model),
                Seq<char>,
            >((a, b, c)),
            Err(message) => <(A, B, C) as TryFromLean>::decoded(obj) == Err::<
                (A::Model, B::Model, C::Model),
                Seq<char>,
            >(message),
        },
{
    constructors_go_by_tag_and_fields(obj, 0, 2, "Prod.mk"@);
}

/// At the C boundary pairs and triples are the objects that box them.
pub proof fn tuples_cross_the_boundary_boxed<
    A: IntoLean + TryFromLean,
    B: IntoLean + TryFromLean,
    C: IntoLean + TryFromLean,
>(a: A, b: B, c: C, obj: Obj)
    ensures
        <(A, B) as LeanAbi>::c_encodes((a, b).model(), obj) <==> <(A, B) as IntoLean>::encodes(
            (a, b).model(),
            obj,
        ),
        <(A, B) as LeanAbi>::c_decoded(obj) == <(A, B) as TryFromLean>::decoded(obj),
        <(A, B, C) as LeanAbi>::c_encodes((a, b, c).model(), obj) <==> <(
            A,
            B,
            C,
        ) as IntoLean>::encodes((a, b, c).model(), obj),
        <(A, B, C) as LeanAbi>::c_decoded(obj) == <(A, B, C) as TryFromLean>::decoded(obj),
{
}

} // verus!
