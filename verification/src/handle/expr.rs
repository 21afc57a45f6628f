//! Opaque handle for expressions.

use vstd::prelude::*;

use crate::abi::traits::{
    IntoLean, LeanAbi, LeanAbiRoundTrip, LeanModel, LeanRoundTrip, SealedAbi, TryFromLean,
};
use crate::error::LeanResult;
use crate::module::args::CArg;
use crate::module::signature::LeanExportAbiRepr;
use crate::runtime::obj::Obj;

verus! {

/// An owned `Lean.Expr`.
///
/// The handle carries the object from one Lean function to another. Building,
/// comparing and rendering the value is left to Lean.
#[derive(Debug)]
pub struct LeanExpr {
    obj: Obj,
}

impl Clone for LeanExpr {
    fn clone(&self) -> (r: LeanExpr)
        ensures
            r.model().tree() == self.model().tree(),
    {
        LeanExpr { obj: self.obj.clone() }
    }
}

impl LeanModel for LeanExpr {
    type Model = Obj;

    closed spec fn model(&self) -> Obj {
        self.obj
    }
}

impl TryFromLean for LeanExpr {
    open spec fn decoded(obj: Obj) -> Result<Obj, Seq<char>> {
        Ok(obj)
    }

    fn try_from_lean(obj: Obj) -> (r: LeanResult<LeanExpr>) {
        Ok(LeanExpr { obj })
    }
}

impl IntoLean for LeanExpr {
    open spec fn encodes(model: Obj, obj: Obj) -> bool {
        obj == model
    }

    fn into_lean(self) -> (obj: Obj) {
        self.obj
    }
}

impl LeanRoundTrip for LeanExpr {
    proof fn round_trip(model: Obj, obj: Obj) {
    }
}

impl SealedAbi for LeanExpr {

}

impl LeanAbi for LeanExpr {
    type CRepr = Obj;

    open spec fn c_repr() -> LeanExportAbiRepr {
        LeanExportAbiRepr::LeanObject
    }

    open spec fn c_encodes(model: Obj, c: Obj) -> bool {
        c == model
    }

    open spec fn c_decoded(c: Obj) -> Result<Obj, Seq<char>> {
        Ok(c)
    }

    proof fn c_repr_is_that_of_the_type(arg: CArg) {
    }

    fn export_abi_repr() -> (r: LeanExportAbiRepr) {
        LeanExportAbiRepr::LeanObject
    }

    fn into_c(self) -> (c: Obj) {
        self.obj
    }

    fn from_c(c: Obj) -> (r: LeanResult<LeanExpr>) {
        Ok(LeanExpr { obj: c })
    }
}

impl LeanAbiRoundTrip for LeanExpr {
    proof fn c_round_trip(model: Obj, c: Obj) {
    }
}

/// Expressions are carried as they are: a handle holds the object that it was made of,
/// and hands that object on unchanged.
pub proof fn expressions_are_carried_as_they_are(a: Obj, b: Obj)
    ensures
        <LeanExpr as TryFromLean>::decoded(a) == Ok::<Obj, Seq<char>>(a),
        <LeanExpr as IntoLean>::encodes(a, b) <==> a == b,
        <LeanExpr as LeanAbi>::c_encodes(a, b) <==> a == b,
        <LeanExpr as LeanAbi>::c_decoded(a) == Ok::<Obj, Seq<char>>(a),
        <LeanExpr as LeanAbi>::c_repr() is LeanObject,
{
}

} // verus!
