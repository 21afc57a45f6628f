//! Typed lookup and dispatch of exported Lean functions.
//!
//! A [`LeanExported`] pairs the address of an export with the Rust types of its
//! arguments and its result. Looking one up rejects the shapes that cannot be
//! right for the symbol; calling it marshals the arguments, has the foreign call
//! made outside, and decodes what came back.

use std::marker::PhantomData;
use vstd::prelude::*;
use vstd::string::*;

use crate::abi::traits::{LeanAbi, LeanModel, LeanRoundTrip, TryFromLean};
use crate::error::io::{decode_io, io_error_kind, io_ok_round_trip, io_outcome, is_io_ok};
use crate::error::{
    LeanDiagnosticCode, LeanError, LeanErrorView, LeanResult, abi_conversion_error,
    symbol_lookup_error,
};
use crate::module::args::{CArg, LeanArgs};
use crate::module::library::{LeanLibrary, unknown_function_error, unknown_global_error};
use crate::module::loaded::LeanModule;
use crate::module::signature::{
    LeanExportAbiRepr, LeanExportOwnership, LeanExportResultConvention, LeanExportReturnAbi,
    export_abi_return_for, return_abi,
};
use crate::module::symbols::SymbolSet;
use crate::runtime::obj::Obj;
use crate::text::{cat5, cat7, decimal, decimal_string};

verus! {

/// Marks the types that can be results.
pub trait SealedResult {

}

/// The result of an exported function.
pub trait DecodeCallResult: SealedResult {
    /// What a call gives.
    type Output: LeanModel;

    /// The representation of the result.
    type CRepr;

    /// Whether the function returns the result of an `IO` action.
    spec fn spec_expects_io_result() -> bool;

    /// The shape of the result.
    spec fn abi_return() -> LeanExportReturnAbi;

    /// The outcome that `c` stands for.
    spec fn outcome(c: Self::CRepr) -> Result<<Self::Output as LeanModel>::Model, LeanErrorView>;

    /// Whether the function returns the result of an `IO` action.
    fn expects_io_result() -> (r: bool)
        ensures
            r == Self::spec_expects_io_result(),
    ;

    /// The shape of the result.
    fn export_abi_return() -> (r: LeanExportReturnAbi)
        ensures
            r == Self::abi_return(),
    ;

    /// Decodes what the foreign call returned.
    fn decode_c(c: Self::CRepr) -> (r: LeanResult<Self::Output>)
        ensures
            yields(r, Self::outcome(c)),
    ;
}

/// Whether `r` is the wanted outcome of a call.
pub open spec fn yields<T: LeanModel>(
    r: LeanResult<T>,
    wanted: Result<T::Model, LeanErrorView>,
) -> bool {
    match wanted {
        Ok(model) => r matches Ok(value) && value.model() == model,
        Err(err) => r matches Err(e) && e@ == err,
    }
}

/// The outcome of a conversion as the outcome of a call.
pub open spec fn conversion_outcome<M>(r: Result<M, Seq<char>>) -> Result<M, LeanErrorView> {
    match r {
        Ok(model) => Ok(model),
        Err(message) => Err(abi_conversion_error(message)),
    }
}

impl<T: LeanAbi> SealedResult for T {

}

impl<T: LeanAbi> DecodeCallResult for T {
    type Output = T;

    type CRepr = T::CRepr;

    open spec fn spec_expects_io_result() -> bool {
        false
    }

    open spec fn abi_return() -> LeanExportReturnAbi {
        return_abi(T::c_repr(), LeanExportResultConvention::Pure)
    }

    open spec fn outcome(c: T::CRepr) -> Result<T::Model, LeanErrorView> {
        conversion_outcome(T::c_decoded(c))
    }

    fn expects_io_result() -> (r: bool) {
        false
    }

    fn export_abi_return() -> (r: LeanExportReturnAbi) {
        export_abi_return_for(T::export_abi_repr(), LeanExportResultConvention::Pure)
    }

    fn decode_c(c: T::CRepr) -> (r: LeanResult<T>) {
        T::from_c(c)
    }
}

/// Marks a function that returns the result of an `IO` action with a value of
/// type `T`.
#[derive(Debug)]
pub struct LeanIo<T> {
    payload: PhantomData<T>,
}

/// The outcome of an `IO` action whose value decodes to a `T`.
pub open spec fn io_value<T: TryFromLean>(result: Obj) -> Result<T::Model, LeanErrorView> {
    match io_outcome(result) {
        Ok(value) => conversion_outcome(T::decoded(value)),
        Err(err) => Err(err),
    }
}

impl<T> SealedResult for LeanIo<T> {

}

impl<T: TryFromLean> DecodeCallResult for LeanIo<T> {
    type Output = T;

    type CRepr = Obj;

    open spec fn spec_expects_io_result() -> bool {
        true
    }

    open spec fn abi_return() -> LeanExportReturnAbi {
        LeanExportReturnAbi {
            repr: LeanExportAbiRepr::LeanObject,
            ownership: LeanExportOwnership::Owned,
            convention: LeanExportResultConvention::IoResult,
        }
    }

    open spec fn outcome(c: Obj) -> Result<T::Model, LeanErrorView> {
        io_value::<T>(c)
    }

    fn expects_io_result() -> (r: bool) {
        true
    }

    fn export_abi_return() -> (r: LeanExportReturnAbi) {
        LeanExportReturnAbi::new(
            LeanExportAbiRepr::LeanObject,
            LeanExportOwnership::Owned,
            LeanExportResultConvention::IoResult,
        )
    }

    fn decode_c(c: Obj) -> (r: LeanResult<T>) {
        match decode_io(c) {
            Ok(value) => T::try_from_lean(value),
            Err(err) => Err(err),
        }
    }
}

/// Where an export is reached.
#[derive(Copy, Clone, Debug, PartialEq, Eq, Structural)]
pub enum CallableTarget {
    /// A function at an address.
    Function(usize),
    /// A global variable at an address, which holds the value of a constant.
    Global(usize),
}

/// The error for a global variable where a function with the given arity was
/// expected.
pub open spec fn not_a_function_error(
    name: Seq<char>,
    path: Seq<char>,
    arity: nat,
) -> LeanErrorView {
    symbol_lookup_error(
        "exported symbol '"@ + name + "' in '"@ + path
            + "' is a Lean nullary-constant global, not a function; look it up with `exported_unchecked::<(), R>(name)` instead (lookup arity is "@
            + decimal(arity) + ")"@,
    )
}

/// Builds the error for a global variable where a function was expected.
pub(crate) fn not_a_function(library: &LeanLibrary, name: &str, arity: usize) -> (r: LeanError)
    ensures
        r@ == not_a_function_error(name@, library@.path, arity as nat),
{
    LeanError::symbol_lookup(
        cat7(
            "exported symbol '",
            name,
            "' in '",
            library.path(),
            "' is a Lean nullary-constant global, not a function; look it up with `exported_unchecked::<(), R>(name)` instead (lookup arity is ",
            decimal_string(arity as u64).as_str(),
            ")",
        ),
    )
}

/// The verdict on looking up `name` with the given arity and result convention,
/// given the loader's answer.
pub open spec fn lookup_verdict(
    globals: Seq<Seq<char>>,
    path: Seq<char>,
    name: Seq<char>,
    arity: nat,
    expects_io_result: bool,
    found: Result<usize, Seq<char>>,
) -> Result<CallableTarget, LeanErrorView> {
    if globals.contains(name) {
        if arity > 0 {
            Err(not_a_function_error(name, path, arity))
        } else if expects_io_result {
            Err(
                symbol_lookup_error(
                    "exported symbol '"@ + name + "' in '"@ + path
                        + "' is a Lean nullary-constant global; `LeanIo<_>` does not apply (Lean does not compile globals as IO-returning)"@,
                ),
            )
        } else {
            match found {
                Ok(address) => Ok(CallableTarget::Global(address)),
                Err(text) => Err(unknown_global_error(name, path, text)),
            }
        }
    } else {
        match found {
            Ok(address) => Ok(CallableTarget::Function(address)),
            Err(text) => Err(unknown_function_error(name, path, text)),
        }
    }
}

/// The mathematical value of the loader's answer.
pub open spec fn found_view(found: Result<usize, String>) -> Result<usize, Seq<char>> {
    match found {
        Ok(address) => Ok(address),
        Err(text) => Err(text@),
    }
}

/// Judges the lookup of `name` with the given arity and result convention.
pub fn resolve_target(
    library: &LeanLibrary,
    name: &str,
    arity: usize,
    expects_io_result: bool,
    found: Result<usize, String>,
) -> (r: LeanResult<CallableTarget>)
    ensures
        match lookup_verdict(
            library@.globals,
            library@.path,
            name@,
            arity as nat,
            expects_io_result,
            found_view(found),
        ) {
            Ok(target) => r == Ok::<CallableTarget, LeanError>(target),
            Err(err) => r matches Err(e) && e@ == err,
        },
{
    let globals: &SymbolSet = library.globals();
    if globals.contains(name) {
        if arity > 0 {
            return Err(not_a_function(library, name, arity));
        }
        if expects_io_result {
            return Err(
                LeanError::symbol_lookup(
                    cat5(
                        "exported symbol '",
                        name,
                        "' in '",
                        library.path(),
                        "' is a Lean nullary-constant global; `LeanIo<_>` does not apply (Lean does not compile globals as IO-returning)",
                    ),
                ),
            );
        }
        match library.resolve_global_symbol(name, found) {
            Ok(address) => Ok(CallableTarget::Global(address)),
            Err(err) => Err(err),
        }
    } else {
        match library.resolve_function_symbol(name, found) {
            Ok(address) => Ok(CallableTarget::Function(address)),
            Err(err) => Err(err),
        }
    }
}

/// An export with the types of its arguments and its result.
#[derive(Debug)]
pub struct LeanExported<Args: LeanArgs, R: DecodeCallResult> {
    target: CallableTarget,
    args: PhantomData<Args>,
    result: PhantomData<R>,
}

/// A foreign call that is to be made.
#[derive(Debug)]
pub enum ForeignCall {
    /// Call the function at the address on the arguments.
    Invoke { address: usize, args: Vec<CArg> },
    /// Read the global variable at the address, and take another reference to
    /// what it holds.
    ReadGlobal { address: usize },
}

impl<Args: LeanArgs, R: DecodeCallResult> LeanExported<Args, R> {
    /// Where the export is reached.
    pub closed spec fn spec_target(self) -> CallableTarget {
        self.target
    }

    /// A global variable takes no arguments and runs no `IO` action.
    #[verifier::type_invariant]
    spec fn well_formed(self) -> bool {
        self.target is Global ==> Args::spec_arity() == 0 && !R::spec_expects_io_result()
    }

    /// Types the function at an address that was resolved before.
    pub fn from_function_address(address: usize) -> (r: LeanExported<Args, R>)
        ensures
            r.spec_target() == CallableTarget::Function(address),
    {
        LeanExported {
            target: CallableTarget::Function(address),
            args: PhantomData,
            result: PhantomData,
        }
    }

    /// Looks an export of a library up by its symbol, given the loader's answer.
    pub fn lookup(library: &LeanLibrary, name: &str, found: Result<usize, String>) -> (r:
        LeanResult<LeanExported<Args, R>>)
        ensures
            match lookup_verdict(
                library@.globals,
                library@.path,
                name@,
                Args::spec_arity(),
                R::spec_expects_io_result(),
                found_view(found),
            ) {
                Ok(target) => r matches Ok(export) && export.spec_target() == target,
                Err(err) => r matches Err(e) && e@ == err,
            },
    {
        match resolve_target(library, name, Args::arity(), R::expects_io_result(), found) {
            Ok(target) => Ok(
                LeanExported { target, args: PhantomData, result: PhantomData },
            ),
            Err(err) => Err(err),
        }
    }

    /// Prepares a call: the arguments are marshalled for a function; a global
    /// variable is read.
    pub fn call(&self, args: Args) -> (r: ForeignCall)
        ensures
            match self.spec_target() {
                CallableTarget::Function(target) => r matches ForeignCall::Invoke {
                    address,
                    args: passed,
                } && address == target && Args::passed(args.model(), passed@) && passed@.len()
                    == Args::spec_arity(),
                CallableTarget::Global(target) => r == (ForeignCall::ReadGlobal {
                    address: target,
                }) && Args::spec_arity() == 0 && !R::spec_expects_io_result(),
            },
    {
        proof {
            use_type_invariant(&*self);
        }
        match self.target {
            CallableTarget::Function(address) => ForeignCall::Invoke {
                address,
                args: args.into_args(),
            },
            CallableTarget::Global(address) => ForeignCall::ReadGlobal { address },
        }
    }

    /// Decodes what the foreign call returned.
    pub fn finish(&self, c: R::CRepr) -> (r: LeanResult<R::Output>)
        ensures
            yields(r, R::outcome(c)),
    {
        R::decode_c(c)
    }
}

impl<'lib> LeanModule<'lib> {
    /// Looks an export up by its symbol, given the loader's answer. The caller
    /// vouches for the types; only shapes that cannot be right are rejected.
    pub fn exported_unchecked<Args: LeanArgs, R: DecodeCallResult>(
        &self,
        name: &str,
        found: Result<usize, String>,
    ) -> (r: LeanResult<LeanExported<Args, R>>)
        ensures
            match lookup_verdict(
                self.spec_library()@.globals,
                self.spec_library()@.path,
                name@,
                Args::spec_arity(),
                R::spec_expects_io_result(),
                found_view(found),
            ) {
                Ok(target) => r matches Ok(export) && export.spec_target() == target,
                Err(err) => r matches Err(e) && e@ == err,
            },
    {
        LeanExported::<Args, R>::lookup(self.library(), name, found)
    }
}

/// The value of a successful `IO` action is read back; with an `Except` as the
/// value, its error is a value like any other.
pub proof fn io_values_round_trip<T: LeanRoundTrip>(model: T::Model, value: Obj, result: Obj)
    requires
        is_io_ok(result, value),
        T::encodes(model, value),
    ensures
        io_value::<T>(result) == Ok::<T::Model, LeanErrorView>(model),
{
    io_ok_round_trip(result, value);
    T::round_trip(model, value);
}

/// What an `IO` action raises surfaces as an exception, whatever type of value was
/// expected.
pub proof fn io_errors_surface_as_exceptions<T: TryFromLean>(result: Obj)
    requires
        result matches Obj::Ctor(ctor) && ctor.tag != 0 && ctor.objects@.len() > 0,
    ensures
        io_value::<T>(result) matches Err(LeanErrorView::LeanException { kind, .. }) && kind
            == io_error_kind(result->Ctor_0.objects@[0]),
{
}

/// A symbol that is a global variable is never taken for a function, and the
/// other way round; a global variable is only ever looked up without arguments
/// and without an `IO` result.
pub proof fn lookup_respects_classification(
    globals: Seq<Seq<char>>,
    path: Seq<char>,
    name: Seq<char>,
    arity: nat,
    expects_io_result: bool,
    found: Result<usize, Seq<char>>,
)
    ensures
        lookup_verdict(globals, path, name, arity, expects_io_result, found) matches Ok(target)
            ==> match target {
            CallableTarget::Global(address) => globals.contains(name) && arity == 0
                && !expects_io_result && found == Ok::<usize, Seq<char>>(address),
            CallableTarget::Function(address) => !globals.contains(name) && found == Ok::<
                usize,
                Seq<char>,
            >(address),
        },
        found is Err ==> lookup_verdict(
            globals,
            path,
            name,
            arity,
            expects_io_result,
            found,
        ) is Err,
{
}

/// A lookup succeeds exactly when the loader found the symbol, unless the symbol is a
/// global variable that is asked for with arguments or with an `IO` result. Every
/// refusal is one of the lookup.
pub proof fn lookup_fails_only_where_it_must(
    globals: Seq<Seq<char>>,
    path: Seq<char>,
    name: Seq<char>,
    arity: nat,
    expects_io_result: bool,
    found: Result<usize, String>,
)
    ensures
        ({
            let verdict = lookup_verdict(
                globals,
                path,
                name,
                arity,
                expects_io_result,
                found_view(found),
            );
            &&& verdict is Ok <==> found is Ok && (globals.contains(name) ==> arity == 0
                && !expects_io_result)
            &&& found matches Ok(address) ==> (verdict matches Ok(target) ==> target == if globals.contains(
                name,
            ) {
                CallableTarget::Global(address)
            } else {
                CallableTarget::Function(address)
            })
            &&& verdict matches Err(err) ==> err.code() == LeanDiagnosticCode::SymbolLookup
        }),
{
}

/// A function's result is of its type's representation and returned as it is; the
/// result of an `IO` action is an object that changes hands.
pub proof fn results_have_their_shapes<T: LeanAbi, U: TryFromLean>()
    ensures
        !<T as DecodeCallResult>::spec_expects_io_result(),
        <T as DecodeCallResult>::abi_return().repr == T::c_repr(),
        <T as DecodeCallResult>::abi_return().convention is Pure,
        <T as DecodeCallResult>::abi_return().ownership is Owned <==> T::c_repr() is LeanObject,
        <LeanIo<U> as DecodeCallResult>::spec_expects_io_result(),
        <LeanIo<U> as DecodeCallResult>::abi_return().repr is LeanObject,
        <LeanIo<U> as DecodeCallResult>::abi_return().convention is IoResult,
        <LeanIo<U> as DecodeCallResult>::abi_return().ownership is Owned,
{
}

/// What a call returned is decoded as its type says. Of an `IO` action the value is
/// decoded where it succeeded; what it ended with otherwise is passed on as it is. A
/// failed conversion is reported as one.
pub proof fn results_are_decoded<T: LeanAbi, U: TryFromLean>(c: T::CRepr, result: Obj)
    ensures
        match T::c_decoded(c) {
            Ok(model) => <T as DecodeCallResult>::outcome(c) == Ok::<T::Model, LeanErrorView>(
                model,
            ),
            Err(message) => <T as DecodeCallResult>::outcome(c) == Err::<T::Model, LeanErrorView>(
                abi_conversion_error(message),
            ),
        },
        match io_outcome(result) {
            Ok(value) => match U::decoded(value) {
                Ok(model) => <LeanIo<U> as DecodeCallResult>::outcome(result) == Ok::<
                    U::Model,
                    LeanErrorView,
                >(model),
                Err(message) => <LeanIo<U> as DecodeCallResult>::outcome(result) == Err::<
                    U::Model,
                    LeanErrorView,
                >(abi_conversion_error(message)),
            },
            Err(err) => <LeanIo<U> as DecodeCallResult>::outcome(result) == Err::<
                U::Model,
                LeanErrorView,
            >(err),
        },
{
}

/// A call that should give a value gives one of that model, and a call that should
/// fail fails with that error.
pub proof fn calls_are_faithful<T: LeanModel>(
    r: LeanResult<T>,
    wanted: Result<T::Model, LeanErrorView>,
)
    requires
        yields(r, wanted),
    ensures
        wanted matches Ok(model) ==> (r matches Ok(value) && value.model() == model),
        wanted matches Err(err) ==> (r matches Err(got) && got@ == err),
{
}

/// A global variable that is asked for as a function is refused by its name, its
/// library and the arity of the lookup.
pub proof fn refused_globals_are_named(name: Seq<char>, path: Seq<char>, arity: nat)
    ensures
        not_a_function_error(name, path, arity) == symbol_lookup_error(
            "exported symbol '"@ + name + "' in '"@ + path
                + "' is a Lean nullary-constant global, not a function; look it up with `exported_unchecked::<(), R>(name)` instead (lookup arity is "@
                + decimal(arity) + ")"@,
        ),
{
}

} // verus!
