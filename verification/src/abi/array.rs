//! Arrays of boxed values: `Vec<T>` as Lean's `Array α`.

use vstd::prelude::*;

use crate::abi::scalar::{
    wrong_kind, wrong_kind_scalar, wrong_kind_scalar_text, wrong_kind_text,
};
use crate::abi::traits::{
    IntoLean, LeanAbi, LeanAbiRoundTrip, LeanModel, LeanRoundTrip, SealedAbi, TryFromLean,
};
use crate::error::{LeanResult, abi_conversion_error};
use crate::module::args::CArg;
use crate::module::signature::LeanExportAbiRepr;
use crate::runtime::obj::Obj;

verus! {

/// The elements of a Lean array, or why there are none.
pub open spec fn elements_of(obj: Obj) -> Result<Seq<Obj>, Seq<char>> {
    match obj {
        Obj::Array(elements) => Ok(elements@),
        Obj::Scalar(_) => Err(wrong_kind_scalar_text("Array"@)),
        _ => Err(wrong_kind_text("Array"@, obj.spec_tag())),
    }
}

/// The models of the first `n` elements, or the message for the first element
/// that does not decode.
pub open spec fn decoded_elements<T: TryFromLean>(elements: Seq<Obj>, n: int) -> Result<
    Seq<T::Model>,
    Seq<char>,
>
    decreases n,
{
    if n <= 0 {
        Ok(Seq::empty())
    } else {
        match decoded_elements::<T>(elements, n - 1) {
            Ok(models) => match T::decoded(elements[n - 1]) {
                Ok(model) => Ok(models.push(model)),
                Err(message) => Err(message),
            },
            Err(message) => Err(message),
        }
    }
}

/// The models of all elements of a Lean array.
pub open spec fn decoded_array<T: TryFromLean>(obj: Obj) -> Result<Seq<T::Model>, Seq<char>> {
    match elements_of(obj) {
        Ok(elements) => decoded_elements::<T>(elements, elements.len() as int),
        Err(message) => Err(message),
    }
}

/// Whether `obj` is an array that encodes the given models in order.
pub open spec fn encodes_array<T: IntoLean>(models: Seq<T::Model>, obj: Obj) -> bool {
    obj matches Obj::Array(elements) && elements@.len() == models.len() && forall|i: int|
        0 <= i < models.len() ==> T::encodes(models[i], #[trigger] elements@[i])
}

proof fn lemma_decoded_elements<T: LeanRoundTrip>(
    models: Seq<T::Model>,
    elements: Seq<Obj>,
    n: int,
)
    requires
        0 <= n <= models.len(),
        elements.len() == models.len(),
        forall|i: int| 0 <= i < models.len() ==> T::encodes(models[i], #[trigger] elements[i]),
    ensures
        decoded_elements::<T>(elements, n) == Ok::<Seq<T::Model>, Seq<char>>(models.take(n)),
    decreases n,
{
    if n > 0 {
        lemma_decoded_elements::<T>(models, elements, n - 1);
        assert(T::encodes(models[n - 1], elements[n - 1]));
        T::round_trip(models[n - 1], elements[n - 1]);
        assert(models.take(n) =~= models.take(n - 1).push(models[n - 1]));
    } else {
        assert(models.take(0) =~= Seq::empty());
    }
}

/// Once an element fails to decode, so does every longer prefix, with the same
/// message.
proof fn lemma_failed_prefix<T: TryFromLean>(elements: Seq<Obj>, n: int, m: int)
    requires
        0 <= n <= m,
        decoded_elements::<T>(elements, n) is Err,
    ensures
        decoded_elements::<T>(elements, m) == decoded_elements::<T>(elements, n),
    decreases m,
{
    if n < m {
        lemma_failed_prefix::<T>(elements, n, m - 1);
    }
}

/// Arrays decode element by element: to the models of all elements in order where
/// each decodes, and to the message of the first that does not otherwise. The
/// elements before `failing` are given to decode; it is the length of the array, or
/// the position of an element that does not.
pub proof fn arrays_decode_elementwise<T: TryFromLean>(elements: Seq<Obj>, failing: int)
    requires
        0 <= failing <= elements.len(),
        forall|i: int| 0 <= i < failing ==> T::decoded(#[trigger] elements[i]) is Ok,
        failing < elements.len() ==> T::decoded(elements[failing]) is Err,
    ensures
        failing == elements.len() ==> decoded_elements::<T>(elements, elements.len() as int)
            == Ok::<Seq<T::Model>, Seq<char>>(
            Seq::new(elements.len(), |i: int| T::decoded(elements[i])->Ok_0),
        ),
        failing < elements.len() ==> decoded_elements::<T>(elements, elements.len() as int)
            == Err::<Seq<T::Model>, Seq<char>>(T::decoded(elements[failing])->Err_0),
{
    lemma_decoded_prefix::<T>(elements, failing);
    if failing < elements.len() {
        lemma_failed_prefix::<T>(elements, failing + 1, elements.len() as int);
    }
}

proof fn lemma_decoded_prefix<T: TryFromLean>(elements: Seq<Obj>, n: int)
    requires
        0 <= n <= elements.len(),
        forall|i: int| 0 <= i < n ==> T::decoded(#[trigger] elements[i]) is Ok,
    ensures
        decoded_elements::<T>(elements, n) == Ok::<Seq<T::Model>, Seq<char>>(
            Seq::new(n as nat, |i: int| T::decoded(elements[i])->Ok_0),
        ),
    decreases n,
{
    let whole = Seq::new(n as nat, |i: int| T::decoded(elements[i])->Ok_0);
    if n > 0 {
        lemma_decoded_prefix::<T>(elements, n - 1);
        assert(T::decoded(elements[n - 1]) is Ok);
        assert(whole =~= Seq::new((n - 1) as nat, |i: int| T::decoded(elements[i])->Ok_0).push(
            T::decoded(elements[n - 1])->Ok_0,
        ));
    } else {
        assert(whole =~= Seq::empty());
    }
}

/// The models of a sequence of values.
pub open spec fn models<T: LeanModel>(values: Seq<T>) -> Seq<T::Model> {
    Seq::new(values.len(), |i: int| values[i].model())
}

/// Builds a Lean array from the values, in order.
pub fn from_values<T: IntoLean>(values: Vec<T>) -> (r: Obj)
    ensures
        encodes_array::<T>(models(values@), r),
{
    let ghost all = values@;
    let mut elements: Vec<Obj> = Vec::new();
    for value in it: values
        invariant
            it.seq() == all,
            elements@.len() == it.index(),
            forall|i: int|
                0 <= i < it.index() ==> T::encodes(all[i].model(), #[trigger] elements@[i]),
    {
        let obj: Obj = value.into_lean();
        elements.push(obj);
    }
    Obj::Array(elements)
}

fn require_array(obj: Obj) -> (r: LeanResult<Vec<Obj>>)
    ensures
        match elements_of(obj) {
            Ok(elements) => r matches Ok(objs) && objs@ == elements,
            Err(message) => r matches Err(err) && err@ == abi_conversion_error(message),
        },
{
    match obj {
        Obj::Scalar(_) => Err(wrong_kind_scalar("Array")),
        Obj::Array(elements) => Ok(elements),
        _ => Err(wrong_kind("Array", obj.heap_tag())),
    }
}

impl<T: LeanModel> LeanModel for Vec<T> {
    type Model = Seq<T::Model>;

    open spec fn model(&self) -> Seq<T::Model> {
        models(self@)
    }
}

impl<T: IntoLean> IntoLean for Vec<T> {
    open spec fn encodes(model: Seq<T::Model>, obj: Obj) -> bool {
        encodes_array::<T>(model, obj)
    }

    fn into_lean(self) -> (obj: Obj) {
        from_values(self)
    }
}

impl<T: TryFromLean> TryFromLean for Vec<T> {
    open spec fn decoded(obj: Obj) -> Result<Seq<T::Model>, Seq<char>> {
        decoded_array::<T>(obj)
    }

    fn try_from_lean(obj: Obj) -> (r: LeanResult<Vec<T>>) {
        let elements: Vec<Obj> = match require_array(obj) {
            Ok(elements) => elements,
            Err(err) => {
                return Err(err);
            },
        };
        let ghost all = elements@;
        let mut out: Vec<T> = Vec::new();
        assert(models(out@) =~= Seq::empty());
        for element in it: elements
            invariant
                it.seq() == all,
                elements_of(obj) == Ok::<Seq<Obj>, Seq<char>>(all),
                decoded_elements::<T>(all, it.index() as int) == Ok::<Seq<T::Model>, Seq<char>>(
                    models(out@),
                ),
        {
            let ghost before = models(out@);
            let ghost n = it.index() as int;
            match T::try_from_lean(element) {
                Ok(value) => {
                    out.push(value);
                    assert(models(out@) =~= before.push(value.model()));
                },
                Err(err) => {
                    proof {
                        assert(decoded_elements::<T>(all, n + 1) is Err);
                        lemma_failed_prefix::<T>(all, n + 1, all.len() as int);
                    }
                    return Err(err);
                },
            }
        }
        Ok(out)
    }
}

impl<T: LeanRoundTrip> LeanRoundTrip for Vec<T> {
    proof fn round_trip(model: Seq<T::Model>, obj: Obj) {
        match obj {
            Obj::Array(elements) => {
                lemma_decoded_elements::<T>(model, elements@, model.len() as int);
                assert(model.take(model.len() as int) =~= model);
            },
            _ => {},
        }
    }
}

impl<T> SealedAbi for Vec<T> {

}

impl<T: IntoLean + TryFromLean> LeanAbi for Vec<T> {
    type CRepr = Obj;

    open spec fn c_repr() -> LeanExportAbiRepr {
        LeanExportAbiRepr::LeanObject
    }

    open spec fn c_encodes(model: Seq<T::Model>, c: Obj) -> bool {
        encodes_array::<T>(model, c)
    }

    open spec fn c_decoded(c: Obj) -> Result<Seq<T::Model>, Seq<char>> {
        decoded_array::<T>(c)
    }

    proof fn c_repr_is_that_of_the_type(arg: CArg) {
    }

    fn export_abi_repr() -> (r: LeanExportAbiRepr) {
        LeanExportAbiRepr::LeanObject
    }

    fn into_c(self) -> (c: Obj) {
        self.into_lean()
    }

    fn from_c(c: Obj) -> (r: LeanResult<Vec<T>>) {
        Vec::<T>::try_from_lean(c)
    }
}

impl<T: LeanRoundTrip> LeanAbiRoundTrip for Vec<T> {
    proof fn c_round_trip(model: Seq<T::Model>, c: Obj) {
        <Vec<T> as LeanRoundTrip>::round_trip(model, c);
    }
}

/// An array holds one element for each value, and the element at each position boxes
/// the value at that position.
pub proof fn arrays_hold_their_values_in_order<T: IntoLean>(values: Vec<T>, obj: Obj)
    ensures
        <Vec<T> as IntoLean>::encodes(values.model(), obj) <==> (obj matches Obj::Array(elements)
            && elements@.len() == values@.len() && forall|i: int|
            0 <= i < values@.len() ==> T::encodes(
                (#[trigger] values@[i]).model(),
                elements@[i],
            )),
{
    let all = values.model();
    assert(forall|i: int| 0 <= i < values@.len() ==> all[i] == (#[trigger] values@[i]).model());
    if let Obj::Array(elements) = obj {
        if elements@.len() == values@.len() {
            if forall|i: int|
                0 <= i < values@.len() ==> T::encodes(
                    (#[trigger] values@[i]).model(),
                    elements@[i],
                ) {
                assert forall|i: int| 0 <= i < all.len() implies T::encodes(
                    all[i],
                    #[trigger] elements@[i],
                ) by {
                    assert(T::encodes(values@[i].model(), elements@[i]));
                }
            }
            if encodes_array::<T>(all, obj) {
                assert forall|i: int| 0 <= i < values@.len() implies T::encodes(
                    (#[trigger] values@[i]).model(),
                    elements@[i],
                ) by {
                    assert(T::encodes(all[i], elements@[i]));
                }
            }
        }
    }
}

/// An array is read element by element: it is read exactly when it is an array and all
/// of its elements are read, and the value at each position comes from the element at
/// that position.
pub proof fn arrays_are_read_in_order<T: TryFromLean>(obj: Obj)
    ensures
        <Vec<T> as TryFromLean>::decoded(obj) is Ok <==> (obj matches Obj::Array(elements)
            && forall|i: int|
            0 <= i < elements@.len() ==> T::decoded(#[trigger] elements@[i]) is Ok),
        <Vec<T> as TryFromLean>::decoded(obj) matches Ok(read) ==> (obj matches Obj::Array(elements)
            && read.len() == elements@.len() && forall|i: int|
            0 <= i < elements@.len() ==> T::decoded(#[trigger] elements@[i]) == Ok::<
                T::Model,
                Seq<char>,
            >(read[i])),
{
    if let Obj::Array(elements) = obj {
        lemma_read_elements::<T>(elements@, elements@.len() as int);
    }
}

proof fn lemma_read_elements<T: TryFromLean>(elements: Seq<Obj>, n: int)
    requires
        0 <= n <= elements.len(),
    ensures
        decoded_elements::<T>(elements, n) is Ok <==> forall|i: int|
            0 <= i < n ==> T::decoded(#[trigger] elements[i]) is Ok,
        decoded_elements::<T>(elements, n) matches Ok(read) ==> read.len() == n && forall|i: int|
            0 <= i < n ==> T::decoded(#[trigger] elements[i]) == Ok::<T::Model, Seq<char>>(read[i]),
    decreases n,
{
    if n > 0 {
        lemma_read_elements::<T>(elements, n - 1);
        if decoded_elements::<T>(elements, n) is Ok {
            assert forall|i: int| 0 <= i < n implies T::decoded(#[trigger] elements[i]) is Ok by {
                if i < n - 1 {
                    assert(decoded_elements::<T>(elements, n - 1) is Ok);
                }
            }
        }
    }
}

/// At the C boundary an array is the object that boxes it.
pub proof fn arrays_cross_the_boundary_boxed<T: IntoLean + TryFromLean>(
    values: Vec<T>,
    obj: Obj,
)
    ensures
        <Vec<T> as LeanAbi>::c_encodes(values.model(), obj) <==> <Vec<T> as IntoLean>::encodes(
            values.model(),
            obj,
        ),
        <Vec<T> as LeanAbi>::c_decoded(obj) == <Vec<T> as TryFromLean>::decoded(obj),
{
}

/// Values are modelled one by one, and arrays of models are those of the values; what
/// is no array is refused by the kind that it is.
pub proof fn arrays_are_modelled_one_by_one<T: IntoLean, U: TryFromLean>(
    values: Seq<T>,
    obj: Obj,
    i: int,
)
    requires
        0 <= i < values.len(),
    ensures
        models(values).len() == values.len(),
        models(values)[i] == values[i].model(),
        encodes_array::<T>(models(values), obj) ==> (obj matches Obj::Array(elements)
            && elements@.len() == values.len() && T::encodes(values[i].model(), elements@[i])),
        decoded_array::<U>(obj) == <Vec<U> as TryFromLean>::decoded(obj),
        obj is Scalar ==> decoded_array::<U>(obj) == Err::<Seq<U::Model>, Seq<char>>(
            "expected Lean "@ + "Array"@ + ", found scalar-tagged object"@,
        ),
{
    if let Obj::Array(elements) = obj {
        if encodes_array::<T>(models(values), obj) {
            assert(T::encodes(models(values)[i], elements@[i]));
        }
    }
}

} // verus!
