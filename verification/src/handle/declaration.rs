//! Opaque handle for declarations.

use vstd::prelude::*;

use crate::abi::traits::{
    LeanAbi, LeanAbiRoundTrip, LeanModel, SealedAbi, TryFromLean,
};
use crate::error::LeanResult;
use crate::module::args::CArg;
use crate::module::signature::LeanExportAbiRepr;
use crate::runtime::obj::Obj;

verus! {

/// An owned `Lean.Declaration`.
///
/// The handle carries the object from one Lean function to another. Building,
/// comparing and rendering the value is left to Lean.
#[derive(Debug)]
pub struct LeanDeclaration {
    obj: Obj,
}

impl Clone for LeanDeclaration {
    fn clone(&self) -> (r: LeanDeclaration)
        ensures
            r.model().tree() == self.model().tree(),
    {
        LeanDeclaration { obj: self.obj.clone() }
    }
}

impl LeanModel for LeanDeclaration {
    type Model = Obj;

    closed spec fn model(&self) -> Obj {
        self.obj
    }
}

impl TryFromLean for LeanDeclaration {
    open spec fn decoded(obj: Obj) -> Result<Obj, Seq<char>> {
        Ok(obj)
    }

    fn try_from_lean(obj: Obj) -> (r: LeanResult<LeanDeclaration>) {
        Ok(LeanDeclaration { obj })
    }
}

impl SealedAbi for LeanDeclaration {

}

impl LeanAbi for LeanDeclaration {
    type CRepr = Obj;

    open spec fn c_repr() -> LeanExportAbiRepr {
        LeanExportAbiRepr::LeanObject
    }

    open spec fn c_encodes(model: Obj, c: Obj) -> bool {
        c == model
    }

    open spec fn c_decoded(c: Obj) -> Result<Obj, Seq<char>> {
        Ok(c)
    }

    proof fn c_repr_is_that_of_the_type(arg: CArg) {
    }

    fn export_abi_repr() -> (r: LeanExportAbiRepr) {
        LeanExportAbiRepr::LeanObject
    }

    fn into_c(self) -> (c: Obj) {
        self.obj
    }

    fn from_c(c: Obj) -> (r: LeanResult<LeanDeclaration>) {
        Ok(LeanDeclaration { obj: c })
    }
}

impl LeanAbiRoundTrip for LeanDeclaration {
    proof fn c_round_trip(model: Obj, c: Obj) {
    }
}

/// Declarations are carried as they are: a handle holds the object that it was made of,
/// and hands that object on unchanged.
pub proof fn declarations_are_carried_as_they_are(a: Obj, b: Obj)
    ensures
        <LeanDeclaration as TryFromLean>::decoded(a) == Ok::<Obj, Seq<char>>(a),
        <LeanDeclaration as LeanAbi>::c_encodes(a, b) <==> a == b,
        <LeanDeclaration as LeanAbi>::c_decoded(a) == Ok::<Obj, Seq<char>>(a),
        <LeanDeclaration as LeanAbi>::c_repr() is LeanObject,
{
}

} // verus!
