//! Shapes of exported Lean functions: how their arguments and results cross the
//! C boundary.

use vstd::prelude::*;
use vstd::string::*;

use crate::text::same_text;

verus! {

/// Representation of an argument or a result at the C boundary.
#[derive(Copy, Clone, Debug, PartialEq, Eq, Structural)]
pub enum LeanExportAbiRepr {
    /// `uint8_t`.
    U8,
    /// `uint16_t`.
    U16,
    /// `uint32_t`.
    U32,
    /// `uint64_t`.
    U64,
    /// `size_t`.
    Usize,
    /// `int8_t`.
    I8,
    /// `int16_t`.
    I16,
    /// `int32_t`.
    I32,
    /// `int64_t`.
    I64,
    /// `ptrdiff_t`.
    Isize,
    /// `double`.
    F64,
    /// `lean_object*`.
    LeanObject,
}

/// Who owns what crosses the boundary.
#[derive(Copy, Clone, Debug, PartialEq, Eq, Structural)]
pub enum LeanExportOwnership {
    /// Nothing is owned: the value is a plain scalar.
    Unowned,
    /// One reference to the object changes hands.
    Owned,
}

/// How a function reports its result.
#[derive(Copy, Clone, Debug, PartialEq, Eq, Structural)]
pub enum LeanExportResultConvention {
    /// It returns the value.
    Pure,
    /// It returns the result of an `IO` action.
    IoResult,
}

/// Who owns a value of the given representation.
pub open spec fn ownership_of(repr: LeanExportAbiRepr) -> LeanExportOwnership {
    if repr == LeanExportAbiRepr::LeanObject {
        LeanExportOwnership::Owned
    } else {
        LeanExportOwnership::Unowned
    }
}

/// Who owns a value of the given representation.
pub fn ownership_for_repr(repr: LeanExportAbiRepr) -> (r: LeanExportOwnership)
    ensures
        r == ownership_of(repr),
{
    if repr == LeanExportAbiRepr::LeanObject {
        LeanExportOwnership::Owned
    } else {
        LeanExportOwnership::Unowned
    }
}

/// Shape of an argument.
#[derive(Copy, Clone, Debug, PartialEq, Eq, Structural)]
pub struct LeanExportArgAbi {
    /// Representation of the argument.
    pub repr: LeanExportAbiRepr,
    /// Ownership of the argument.
    pub ownership: LeanExportOwnership,
}

impl LeanExportArgAbi {
    /// Describes an argument.
    pub fn new(repr: LeanExportAbiRepr, ownership: LeanExportOwnership) -> (r: LeanExportArgAbi)
        ensures
            r == (LeanExportArgAbi { repr, ownership }),
    {
        LeanExportArgAbi { repr, ownership }
    }
}

/// Shape of a result.
#[derive(Copy, Clone, Debug, PartialEq, Eq, Structural)]
pub struct LeanExportReturnAbi {
    /// Representation of the result.
    pub repr: LeanExportAbiRepr,
    /// Ownership of the result.
    pub ownership: LeanExportOwnership,
    /// Convention of the result.
    pub convention: LeanExportResultConvention,
}

impl LeanExportReturnAbi {
    /// Describes a result.
    pub fn new(
        repr: LeanExportAbiRepr,
        ownership: LeanExportOwnership,
        convention: LeanExportResultConvention,
    ) -> (r: LeanExportReturnAbi)
        ensures
            r == (LeanExportReturnAbi { repr, ownership, convention }),
    {
        LeanExportReturnAbi { repr, ownership, convention }
    }
}

/// The shape of an argument of the given representation.
pub open spec fn arg_abi(repr: LeanExportAbiRepr) -> LeanExportArgAbi {
    LeanExportArgAbi { repr, ownership: ownership_of(repr) }
}

/// The shape of a result of the given representation.
pub open spec fn return_abi(
    repr: LeanExportAbiRepr,
    convention: LeanExportResultConvention,
) -> LeanExportReturnAbi {
    LeanExportReturnAbi { repr, ownership: ownership_of(repr), convention }
}

/// Describes an argument of the given representation.
pub fn export_abi_arg_for(repr: LeanExportAbiRepr) -> (r: LeanExportArgAbi)
    ensures
        r == arg_abi(repr),
{
    LeanExportArgAbi::new(repr, ownership_for_repr(repr))
}

/// Describes a result of the given representation.
pub fn export_abi_return_for(
    repr: LeanExportAbiRepr,
    convention: LeanExportResultConvention,
) -> (r: LeanExportReturnAbi)
    ensures
        r == return_abi(repr, convention),
{
    LeanExportReturnAbi::new(repr, ownership_for_repr(repr), convention)
}

/// Shape of an exported function, as a build recorded it.
#[derive(Debug)]
pub struct LeanExportSignature {
    /// Exported symbol.
    pub symbol: String,
    /// Shapes of the arguments.
    pub args: Vec<LeanExportArgAbi>,
    /// Shape of the result.
    pub result: LeanExportReturnAbi,
}

/// Mathematical value of a [`LeanExportSignature`].
pub struct LeanExportSignatureView {
    pub symbol: Seq<char>,
    pub args: Seq<LeanExportArgAbi>,
    pub result: LeanExportReturnAbi,
}

impl View for LeanExportSignature {
    type V = LeanExportSignatureView;

    open spec fn view(&self) -> LeanExportSignatureView {
        LeanExportSignatureView { symbol: self.symbol@, args: self.args@, result: self.result }
    }
}

/// The contents of a sequence of signatures.
pub open spec fn signature_views(
    signatures: Seq<LeanExportSignature>,
) -> Seq<LeanExportSignatureView> {
    Seq::new(signatures.len(), |i: int| signatures[i]@)
}

impl LeanExportSignature {
    /// Describes a function.
    pub fn function(
        symbol: &str,
        args: Vec<LeanExportArgAbi>,
        result: LeanExportReturnAbi,
    ) -> (r: LeanExportSignature)
        ensures
            r@ == (LeanExportSignatureView { symbol: symbol@, args: args@, result }),
    {
        LeanExportSignature { symbol: symbol.to_owned(), args, result }
    }

    /// Whether the function has the given shape.
    pub fn has_shape(&self, args: &Vec<LeanExportArgAbi>, result: LeanExportReturnAbi) -> (r: bool)
        ensures
            r == (self@.args == args@ && self@.result == result),
    {
        if self.result != result || self.args.len() != args.len() {
            return false;
        }
        let mut i: usize = 0;
        while i < args.len()
            invariant
                i <= args@.len(),
                self.args@.len() == args@.len(),
                forall|j: int| 0 <= j < i ==> self.args@[j] == args@[j],
            decreases args@.len() - i,
        {
            if self.args[i] != args[i] {
                return false;
            }
            i = i + 1;
        }
        assert(self.args@ =~= args@);
        true
    }
}

/// The position of the first signature of `symbol` at or after `from`, or the
/// end.
pub open spec fn signature_index(
    signatures: Seq<LeanExportSignatureView>,
    symbol: Seq<char>,
    from: int,
) -> int
    decreases signatures.len() - from,
{
    if from >= signatures.len() || signatures[from].symbol == symbol {
        from
    } else {
        signature_index(signatures, symbol, from + 1)
    }
}

/// Finds the first signature of `symbol`.
pub fn find_signature<'a>(signatures: &'a Vec<LeanExportSignature>, symbol: &str) -> (r: Option<
    &'a LeanExportSignature,
>)
    ensures
        ({
            let views = signature_views(signatures@);
            let i = signature_index(views, symbol@, 0);
            match r {
                Some(signature) => 0 <= i < views.len() && signature@ == views[i],
                None => i >= views.len(),
            }
        }),
{
    let ghost views = signature_views(signatures@);
    let mut i: usize = 0;
    while i < signatures.len()
        invariant
            i <= signatures@.len(),
            views == signature_views(signatures@),
            signature_index(views, symbol@, 0) == signature_index(views, symbol@, i as int),
        decreases signatures@.len() - i,
    {
        if same_text(signatures[i].symbol.as_str(), symbol) {
            assert(views[i as int] == signatures@[i as int]@);
            return Some(&signatures[i]);
        }
        i = i + 1;
    }
    None
}

/// Objects change hands with one reference, arguments and results alike; no other
/// representation is owned. The shape names the representation and the convention as
/// they are.
pub proof fn only_objects_are_owned(
    repr: LeanExportAbiRepr,
    convention: LeanExportResultConvention,
)
    ensures
        arg_abi(repr).repr == repr,
        arg_abi(repr).ownership is Owned <==> repr is LeanObject,
        return_abi(repr, convention).repr == repr,
        return_abi(repr, convention).ownership is Owned <==> repr is LeanObject,
        return_abi(repr, convention).convention == convention,
        ownership_of(repr) is Owned <==> repr is LeanObject,
{
}

/// Of several signatures of one symbol the first counts, and a symbol without a
/// signature is not found.
pub proof fn first_signature_counts(
    signatures: Seq<LeanExportSignatureView>,
    symbol: Seq<char>,
    first: int,
)
    requires
        0 <= first <= signatures.len(),
        forall|i: int| 0 <= i < first ==> (#[trigger] signatures[i]).symbol != symbol,
        first < signatures.len() ==> signatures[first].symbol == symbol,
    ensures
        signature_index(signatures, symbol, 0) == first,
{
    lemma_first_signature(signatures, symbol, 0, first);
}

proof fn lemma_first_signature(
    signatures: Seq<LeanExportSignatureView>,
    symbol: Seq<char>,
    from: int,
    first: int,
)
    requires
        0 <= from <= first <= signatures.len(),
        forall|i: int| 0 <= i < first ==> (#[trigger] signatures[i]).symbol != symbol,
        first < signatures.len() ==> signatures[first].symbol == symbol,
    ensures
        signature_index(signatures, symbol, from) == first,
    decreases first - from,
{
    if from < first {
        assert(signatures[from].symbol != symbol);
        lemma_first_signature(signatures, symbol, from + 1, first);
    }
}

/// Signatures are viewed one by one, part by part.
pub proof fn signatures_are_viewed_part_by_part(signatures: Seq<LeanExportSignature>, i: int)
    requires
        0 <= i < signatures.len(),
    ensures
        signature_views(signatures).len() == signatures.len(),
        signature_views(signatures)[i].symbol == signatures[i].symbol@,
        signature_views(signatures)[i].args == signatures[i].args@,
        signature_views(signatures)[i].result == signatures[i].result,
{
}

} // verus!
