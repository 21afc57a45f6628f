//! Summaries of kernel-checked evidence.

use vstd::prelude::*;
use vstd::string::*;

use crate::abi::string::string_of;
use crate::abi::structure::{
    constructors_go_by_tag_and_fields, ctor_shape_of, take_ctor_objects,
};
use crate::abi::traits::{LeanModel, TryFromLean};
use crate::error::LeanResult;
use crate::runtime::obj::Obj;

verus! {

/// Bytes that Lean keeps of each text of a summary.
pub const LEAN_PROOF_SUMMARY_BYTE_LIMIT: usize = 4 * 1024;

/// Mathematical value of a [`ProofSummary`].
pub struct ProofSummaryView {
    pub declaration_name: Seq<char>,
    pub kind: Seq<char>,
    pub type_signature: Seq<char>,
}

/// A summary of evidence for display.
#[derive(Debug)]
pub struct ProofSummary {
    declaration_name: String,
    kind: String,
    type_signature: String,
}

impl Clone for ProofSummary {
    fn clone(&self) -> (r: ProofSummary)
        ensures
            r.model() == self.model(),
    {
        ProofSummary {
            declaration_name: self.declaration_name.clone(),
            kind: self.kind.clone(),
            type_signature: self.type_signature.clone(),
        }
    }
}

impl LeanModel for ProofSummary {
    type Model = ProofSummaryView;

    closed spec fn model(&self) -> ProofSummaryView {
        ProofSummaryView {
            declaration_name: self.declaration_name@,
            kind: self.kind@,
            type_signature: self.type_signature@,
        }
    }
}

impl ProofSummary {
    /// Name of the declaration.
    #[must_use]
    pub fn declaration_name(&self) -> (r: &str)
        ensures
            r@ == self.model().declaration_name,
    {
        self.declaration_name.as_str()
    }

    /// Kind of the declaration.
    #[must_use]
    pub fn kind(&self) -> (r: &str)
        ensures
            r@ == self.model().kind,
    {
        self.kind.as_str()
    }

    /// Type of the declaration.
    #[must_use]
    pub fn type_signature(&self) -> (r: &str)
        ensures
            r@ == self.model().type_signature,
    {
        self.type_signature.as_str()
    }
}

/// The model of the summary that `obj` encodes, or why it encodes none: a
/// constructor with three strings, the first bad one of which is reported.
pub open spec fn decoded_summary(obj: Obj) -> Result<ProofSummaryView, Seq<char>> {
    match ctor_shape_of(obj, 0, 3, "ProofSummary"@) {
        Err(message) => Err(message),
        Ok(ctor) => match string_of(ctor.objects@[0]) {
            Err(message) => Err(message),
            Ok(declaration_name) => match string_of(ctor.objects@[1]) {
                Err(message) => Err(message),
                Ok(kind) => match string_of(ctor.objects@[2]) {
                    Err(message) => Err(message),
                    Ok(type_signature) => Ok(
                        ProofSummaryView { declaration_name, kind, type_signature },
                    ),
                },
            },
        },
    }
}

impl TryFromLean for ProofSummary {
    open spec fn decoded(obj: Obj) -> Result<ProofSummaryView, Seq<char>> {
        decoded_summary(obj)
    }

    fn try_from_lean(obj: Obj) -> (r: LeanResult<ProofSummary>) {
        let mut fields: Vec<Obj> = match take_ctor_objects(obj, 0, 3, "ProofSummary") {
            Ok(fields) => fields,
            Err(err) => {
                return Err(err);
            },
        };
        let third: Obj = fields.remove(2);
        let second: Obj = fields.remove(1);
        let first: Obj = fields.remove(0);
        let declaration_name: String = match String::try_from_lean(first) {
            Ok(text) => text,
            Err(err) => {
                return Err(err);
            },
        };
        let kind: String = match String::try_from_lean(second) {
            Ok(text) => text,
            Err(err) => {
                return Err(err);
            },
        };
        match String::try_from_lean(third) {
            Ok(type_signature) => Ok(ProofSummary { declaration_name, kind, type_signature }),
            Err(err) => Err(err),
        }
    }
}

/// A summary is a constructor with tag zero and three strings: the name of the
/// declaration, its kind and its type, in this order. Where one of them is no string the
/// first such is reported.
pub proof fn summaries_hold_name_kind_and_type(obj: Obj)
    ensures
        <ProofSummary as TryFromLean>::decoded(obj) is Ok <==> (obj matches Obj::Ctor(ctor)
            && ctor.tag == 0 && ctor.objects@.len() == 3 && string_of(ctor.objects@[0]) is Ok
            && string_of(ctor.objects@[1]) is Ok && string_of(ctor.objects@[2]) is Ok),
        <ProofSummary as TryFromLean>::decoded(obj) matches Ok(summary) ==> {
            let fields = obj->Ctor_0.objects@;
            &&& string_of(fields[0]) == Ok::<Seq<char>, Seq<char>>(summary.declaration_name)
            &&& string_of(fields[1]) == Ok::<Seq<char>, Seq<char>>(summary.kind)
            &&& string_of(fields[2]) == Ok::<Seq<char>, Seq<char>>(summary.type_signature)
        },
        (obj matches Obj::Ctor(ctor) && ctor.tag == 0 && ctor.objects@.len() == 3) ==> {
            let fields = obj->Ctor_0.objects@;
            string_of(fields[0]) matches Err(message) ==> <ProofSummary as TryFromLean>::decoded(
                obj,
            ) == Err::<ProofSummaryView, Seq<char>>(message)
        },
        LEAN_PROOF_SUMMARY_BYTE_LIMIT == 4096,
{
    constructors_go_by_tag_and_fields(obj, 0, 3, "ProofSummary"@);
}

} // verus!
