//! Opaque handle for evidence that the kernel accepted.

use vstd::prelude::*;

use crate::abi::traits::{
    LeanAbi, LeanAbiRoundTrip, LeanModel, SealedAbi, TryFromLean,
};
use crate::error::LeanResult;
use crate::module::args::CArg;
use crate::module::signature::LeanExportAbiRepr;
use crate::runtime::obj::Obj;

verus! {

/// An owned `Evidence`.
///
/// The handle carries the object from one Lean function to another. Building,
/// comparing and rendering the value is left to Lean.
#[derive(Debug)]
pub struct LeanEvidence {
    obj: Obj,
}

impl Clone for LeanEvidence {
    fn clone(&self) -> (r: LeanEvidence)
        ensures
            r.model().tree() == self.model().tree(),
    {
        LeanEvidence { obj: self.obj.clone() }
    }
}

impl LeanModel for LeanEvidence {
    type Model = Obj;

    closed spec fn model(&self) -> Obj {
        self.obj
    }
}

impl TryFromLean for LeanEvidence {
    open spec fn decoded(obj: Obj) -> Result<Obj, Seq<char>> {
        Ok(obj)
    }

    fn try_from_lean(obj: Obj) -> (r: LeanResult<LeanEvidence>) {
        Ok(LeanEvidence { obj })
    }
}

impl SealedAbi for LeanEvidence {

}

impl LeanAbi for LeanEvidence {
    type CRepr = Obj;

    open spec fn c_repr() -> LeanExportAbiRepr {
        LeanExportAbiRepr::LeanObject
    }

    open spec fn c_encodes(model: Obj, c: Obj) -> bool {
        c == model
    }

    open spec fn c_decoded(c: Obj) -> Result<Obj, Seq<char>> {
        Ok(c)
    }

    proof fn c_repr_is_that_of_the_type(arg: CArg) {
    }

    fn export_abi_repr() -> (r: LeanExportAbiRepr) {
        LeanExportAbiRepr::LeanObject
    }

    fn into_c(self) -> (c: Obj) {
        self.obj
    }

    fn from_c(c: Obj) -> (r: LeanResult<LeanEvidence>) {
        Ok(LeanEvidence { obj: c })
    }
}

impl LeanAbiRoundTrip for LeanEvidence {
    proof fn c_round_trip(model: Obj, c: Obj) {
    }
}

/// Evidence is carried as they are: a handle holds the object that it was made of,
/// and hands that object on unchanged.
pub proof fn evidence_is_carried_as_they_are(a: Obj, b: Obj)
    ensures
        <LeanEvidence as TryFromLean>::decoded(a) == Ok::<Obj, Seq<char>>(a),
        <LeanEvidence as LeanAbi>::c_encodes(a, b) <==> a == b,
        <LeanEvidence as LeanAbi>::c_decoded(a) == Ok::<Obj, Seq<char>>(a),
        <LeanEvidence as LeanAbi>::c_repr() is LeanObject,
{
}

} // verus!
