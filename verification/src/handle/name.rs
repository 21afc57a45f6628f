//! Opaque handle for names.

use vstd::prelude::*;

use crate::abi::traits::{
    IntoLean, LeanAbi, LeanAbiRoundTrip, LeanModel, LeanRoundTrip, SealedAbi, TryFromLean,
};
use crate::error::LeanResult;
use crate::module::args::CArg;
use crate::module::signature::LeanExportAbiRepr;
use crate::runtime::obj::Obj;

verus! {

/// An owned `Lean.Name`.
///
/// The handle carries the object from one Lean function to another. Building,
/// comparing and rendering the value is left to Lean.
#[derive(Debug)]
pub struct LeanName {
    obj: Obj,
}

impl Clone for LeanName {
    fn clone(&self) -> (r: LeanName)
        ensures
            r.model().tree() == self.model().tree(),
    {
        LeanName { obj: self.obj.clone() }
    }
}

impl LeanModel for LeanName {
    type Model = Obj;

    closed spec fn model(&self) -> Obj {
        self.obj
    }
}

impl TryFromLean for LeanName {
    open spec fn decoded(obj: Obj) -> Result<Obj, Seq<char>> {
        Ok(obj)
    }

    fn try_from_lean(obj: Obj) -> (r: LeanResult<LeanName>) {
        Ok(LeanName { obj })
    }
}

impl IntoLean for LeanName {
    open spec fn encodes(model: Obj, obj: Obj) -> bool {
        obj == model
    }

    fn into_lean(self) -> (obj: Obj) {
        self.obj
    }
}

impl LeanRoundTrip for LeanName {
    proof fn round_trip(model: Obj, obj: Obj) {
    }
}

impl SealedAbi for LeanName {

}

impl LeanAbi for LeanName {
    type CRepr = Obj;

    open spec fn c_repr() -> LeanExportAbiRepr {
        LeanExportAbiRepr::LeanObject
    }

    open spec fn c_encodes(model: Obj, c: Obj) -> bool {
        c == model
    }

    open spec fn c_decoded(c: Obj) -> Result<Obj, Seq<char>> {
        Ok(c)
    }

    proof fn c_repr_is_that_of_the_type(arg: CArg) {
    }

    fn export_abi_repr() -> (r: LeanExportAbiRepr) {
        LeanExportAbiRepr::LeanObject
    }

    fn into_c(self) -> (c: Obj) {
        self.obj
    }

    fn from_c(c: Obj) -> (r: LeanResult<LeanName>) {
        Ok(LeanName { obj: c })
    }
}

impl LeanAbiRoundTrip for LeanName {
    proof fn c_round_trip(model: Obj, c: Obj) {
    }
}

/// Names are carried as they are: a handle holds the object that it was made of,
/// and hands that object on unchanged.
pub proof fn names_are_carried_as_they_are(a: Obj, b: Obj)
    ensures
        <LeanName as TryFromLean>::decoded(a) == Ok::<Obj, Seq<char>>(a),
        <LeanName as IntoLean>::encodes(a, b) <==> a == b,
        <LeanName as LeanAbi>::c_encodes(a, b) <==> a == b,
        <LeanName as LeanAbi>::c_decoded(a) == Ok::<Obj, Seq<char>>(a),
        <LeanName as LeanAbi>::c_repr() is LeanObject,
{
}

} // verus!
