//! Sessions over an imported environment.
//!
//! Every operation of a session is one or more foreign calls. A session builds
//! each call, with its arguments marshalled, and takes the reply back: it counts
//! the call and decodes the reply. Making the call is left to the outside.
//!
//! Looking a declaration up takes two calls: one that builds the name and one
//! that queries the environment. A bulk query of `n` names takes `n + 1`.

use std::marker::PhantomData;
use vstd::prelude::*;
use vstd::string::*;
use vstd::utf8::encode_utf8;

use crate::abi::array::{arrays_decode_elementwise, encodes_array, models};
use crate::abi::except::outcomes_are_read_by_their_tag;
use crate::abi::string::is_string;
use crate::abi::traits::{IntoLean, LeanAbi, LeanModel, TryFromLean};
use crate::error::io::io_outcome;
use crate::error::{LeanError, LeanErrorView, LeanResult, abi_conversion_error};
use crate::handle::{LeanDeclaration, LeanExpr, LeanName};
use crate::host::capabilities::LeanCapabilities;
use crate::host::elaboration::{LeanElabFailure, LeanElabOptions};
use crate::host::elaboration::failure::LeanElabFailureView;
use crate::host::evidence::{EvidenceStatus, LeanEvidence, LeanKernelOutcome, ProofSummary};
use crate::host::lake::{joined_path, lake_layout, library_dir};
use crate::host::meta::{LeanMetaOptions, LeanMetaResponse, LeanMetaService};
use crate::host::meta::response::LeanMetaResponseView;
use crate::host::symbols::SessionSymbols;
use crate::module::args::{CArg, CValue, LeanArgs, passes};
use crate::module::exported::{
    DecodeCallResult, ForeignCall, LeanExported, LeanIo, conversion_outcome, io_value,
    not_a_function, not_a_function_error, yields,
};
use crate::module::library::{LeanLibrary, unknown_function_error};
use crate::runtime::obj::Obj;
use crate::text::{cat3, texts};

verus! {

/// What a session has done.
#[derive(Copy, Clone, Debug, PartialEq, Eq, Structural)]
pub struct SessionStats {
    /// Foreign calls made.
    pub ffi_calls: u64,
    /// Items handed over in bulk calls.
    pub batch_items: u64,
    /// Nanoseconds spent in foreign calls.
    pub elapsed_ns: u64,
}

/// The stats of a session that has done nothing.
pub open spec fn no_calls() -> SessionStats {
    SessionStats { ffi_calls: 0, batch_items: 0, elapsed_ns: 0 }
}

impl Default for SessionStats {
    fn default() -> (r: SessionStats)
        ensures
            r == no_calls(),
    {
        SessionStats { ffi_calls: 0, batch_items: 0, elapsed_ns: 0 }
    }
}

/// The sum of two counts, which stays at the greatest count once it is there.
pub open spec fn saturating_sum(a: u64, b: int) -> u64 {
    if a + b <= u64::MAX {
        (a + b) as u64
    } else {
        u64::MAX
    }
}

/// The stats after another call that took `elapsed` nanoseconds and carried
/// `batch` items.
pub open spec fn recorded(stats: SessionStats, batch: u64, elapsed: u128) -> SessionStats {
    SessionStats {
        ffi_calls: saturating_sum(stats.ffi_calls, 1),
        batch_items: saturating_sum(stats.batch_items, batch as int),
        elapsed_ns: saturating_sum(stats.elapsed_ns, elapsed as int),
    }
}

fn add_saturating(a: u64, b: u64) -> (r: u64)
    ensures
        r == saturating_sum(a, b as int),
{
    if a <= u64::MAX - b {
        a + b
    } else {
        u64::MAX
    }
}

/// The reply to a foreign call that returns an object.
#[derive(Debug)]
pub struct CallReply {
    /// What the call returned.
    pub value: Obj,
    /// How many nanoseconds it took.
    pub elapsed_nanos: u128,
}

/// Whether `arg` is another reference to `obj`: it has the same content, and in it
/// the same references to what only Lean code looks into.
pub open spec fn shares(arg: CArg, obj: Obj) -> bool {
    arg matches CArg::Object(o) && o.tree() == obj.tree()
}

/// Whether `arg` is the string `text`.
pub open spec fn passes_text(arg: CArg, text: Seq<char>) -> bool {
    arg matches CArg::Object(o) && is_string(o, text)
}

/// Whether `arg` is the optional object `obj`, or another reference to it.
pub open spec fn shares_option(arg: CArg, obj: Option<Obj>) -> bool {
    arg matches CArg::Object(o) && match obj {
        None => o == Obj::Scalar(0),
        Some(inner) => o matches Obj::Ctor(ctor) && ctor.tag == 1 && ctor.objects@.len() == 1
            && ctor.scalars@.len() == 0 && ctor.objects@[0].tree() == inner.tree(),
    }
}

/// The arguments of a call of the function at `target`.
pub open spec fn calls(call: ForeignCall, target: usize) -> bool {
    call matches ForeignCall::Invoke { address, args } && address == target
}

/// The arguments of a call.
pub open spec fn args_of(call: ForeignCall) -> Seq<CArg> {
    match call {
        ForeignCall::Invoke { args, .. } => args@,
        ForeignCall::ReadGlobal { .. } => Seq::empty(),
    }
}

/// Whether `call` builds the name `name`.
pub open spec fn builds_name(call: ForeignCall, symbols: SessionSymbols, name: Seq<char>) -> bool {
    &&& calls(call, symbols.name_from_string)
    &&& args_of(call).len() == 1
    &&& passes_text(args_of(call)[0], name)
}

/// Whether `call` passes the environment and the object `obj` to the function at
/// `target`.
pub open spec fn passes_with_environment(
    call: ForeignCall,
    target: usize,
    environment: Obj,
    obj: Obj,
) -> bool {
    &&& calls(call, target)
    &&& args_of(call).len() == 2
    &&& shares(args_of(call)[0], environment)
    &&& shares(args_of(call)[1], obj)
}

/// The message for a declaration that is not there.
pub open spec fn missing_declaration_text(name: Seq<char>) -> Seq<char> {
    "declaration '"@ + name + "' not found in imported environment"@
}

fn missing_declaration(name: &str) -> (r: LeanError)
    ensures
        r@ == abi_conversion_error(missing_declaration_text(name@)),
{
    LeanError::abi_conversion(
        cat3("declaration '", name, "' not found in imported environment"),
    )
}

/// The outcome of querying the declaration `name`, given the reply.
pub open spec fn declaration_outcome(name: Seq<char>, reply: Obj) -> Result<Obj, LeanErrorView> {
    match io_value::<Option<LeanDeclaration>>(reply) {
        Ok(Some(declaration)) => Ok(declaration),
        Ok(None) => Err(abi_conversion_error(missing_declaration_text(name))),
        Err(err) => Err(err),
    }
}

/// The outcome of elaborating a term, given the reply.
pub open spec fn elaboration_outcome(reply: Obj) -> Result<
    Result<Obj, LeanElabFailureView>,
    LeanErrorView,
> {
    io_value::<Result<LeanExpr, LeanElabFailure>>(reply)
}

/// The outcome of elaborating several terms at once, given the reply.
pub open spec fn bulk_elaboration_outcome(reply: Obj) -> Result<
    Seq<Result<Obj, LeanElabFailureView>>,
    LeanErrorView,
> {
    io_value::<Vec<Result<LeanExpr, LeanElabFailure>>>(reply)
}

/// What can be asked of a declaration by its name.
pub trait DeclarationQuestion: Sized {
    /// What the answer is.
    type Answer: LeanModel;

    /// The address of the function that answers.
    spec fn target(symbols: SessionSymbols) -> usize;

    /// The answer on the declaration `name`, given the reply to the query.
    spec fn outcome(name: Seq<char>, reply: Obj) -> Result<
        <Self::Answer as LeanModel>::Model,
        LeanErrorView,
    >;

    /// The address of the function that answers.
    fn address(symbols: &SessionSymbols) -> (r: usize)
        ensures
            r == Self::target(*symbols),
    ;

    /// Takes the answer from the reply to the query.
    fn answer(name: &str, reply: Obj) -> (r: LeanResult<Self::Answer>)
        ensures
            yields(r, Self::outcome(name@, reply)),
    ;
}

/// Asks for the declaration itself.
#[derive(Debug)]
pub struct WholeDeclaration;

/// Asks for the type of a declaration.
#[derive(Debug)]
pub struct DeclarationType;

/// Asks for the kind of a declaration.
#[derive(Debug)]
pub struct DeclarationKind;

/// Asks for the rendered name of a declaration.
#[derive(Debug)]
pub struct DeclarationName;

impl DeclarationQuestion for WholeDeclaration {
    type Answer = LeanDeclaration;

    open spec fn target(symbols: SessionSymbols) -> usize {
        symbols.env_query_declaration
    }

    open spec fn outcome(name: Seq<char>, reply: Obj) -> Result<Obj, LeanErrorView> {
        declaration_outcome(name, reply)
    }

    fn address(symbols: &SessionSymbols) -> (r: usize) {
        symbols.env_query_declaration
    }

    fn answer(name: &str, reply: Obj) -> (r: LeanResult<LeanDeclaration>) {
        match <LeanIo<Option<LeanDeclaration>> as DecodeCallResult>::decode_c(reply) {
            Ok(Some(declaration)) => Ok(declaration),
            Ok(None) => Err(missing_declaration(name)),
            Err(err) => Err(err),
        }
    }
}

impl DeclarationQuestion for DeclarationType {
    type Answer = Option<LeanExpr>;

    open spec fn target(symbols: SessionSymbols) -> usize {
        symbols.env_declaration_type
    }

    open spec fn outcome(name: Seq<char>, reply: Obj) -> Result<Option<Obj>, LeanErrorView> {
        io_value::<Option<LeanExpr>>(reply)
    }

    fn address(symbols: &SessionSymbols) -> (r: usize) {
        symbols.env_declaration_type
    }

    fn answer(_name: &str, reply: Obj) -> (r: LeanResult<Option<LeanExpr>>) {
        <LeanIo<Option<LeanExpr>> as DecodeCallResult>::decode_c(reply)
    }
}

impl DeclarationQuestion for DeclarationKind {
    type Answer = String;

    open spec fn target(symbols: SessionSymbols) -> usize {
        symbols.env_declaration_kind
    }

    open spec fn outcome(name: Seq<char>, reply: Obj) -> Result<Seq<char>, LeanErrorView> {
        io_value::<String>(reply)
    }

    fn address(symbols: &SessionSymbols) -> (r: usize) {
        symbols.env_declaration_kind
    }

    fn answer(_name: &str, reply: Obj) -> (r: LeanResult<String>) {
        <LeanIo<String> as DecodeCallResult>::decode_c(reply)
    }
}

impl DeclarationQuestion for DeclarationName {
    type Answer = String;

    open spec fn target(symbols: SessionSymbols) -> usize {
        symbols.env_declaration_name
    }

    open spec fn outcome(name: Seq<char>, reply: Obj) -> Result<Seq<char>, LeanErrorView> {
        io_value::<String>(reply)
    }

    fn address(symbols: &SessionSymbols) -> (r: usize) {
        symbols.env_declaration_name
    }

    fn answer(_name: &str, reply: Obj) -> (r: LeanResult<String>) {
        <LeanIo<String> as DecodeCallResult>::decode_c(reply)
    }
}

/// The query of a single declaration under way: first its name is built, then the
/// environment is asked.
#[derive(Debug)]
pub struct NameQuery<Q: DeclarationQuestion> {
    name: String,
    named: bool,
    question: PhantomData<Q>,
}

/// Mathematical value of a [`NameQuery`].
pub struct NameQueryView {
    pub name: Seq<char>,
    pub named: bool,
}

impl<Q: DeclarationQuestion> View for NameQuery<Q> {
    type V = NameQueryView;

    closed spec fn view(&self) -> NameQueryView {
        NameQueryView { name: self.name@, named: self.named }
    }
}

impl NameQueryView {
    /// The number of calls that are still to be made.
    pub open spec fn remaining_calls(self) -> int {
        if self.named {
            1
        } else {
            2
        }
    }
}

/// Whether `r` is a query of the declaration `name` of which nothing has been done,
/// with the call that builds the name.
pub open spec fn starts_query<Q: DeclarationQuestion>(
    r: (NameQuery<Q>, ForeignCall),
    symbols: SessionSymbols,
    name: Seq<char>,
) -> bool {
    &&& r.0@.name == name
    &&& r.0@.remaining_calls() == 2
    &&& builds_name(r.1, symbols, name)
}

/// What a step of the query of a single declaration came to.
#[derive(Debug)]
pub enum QueryStep<Q: DeclarationQuestion> {
    /// The next call is due.
    Call(NameQuery<Q>, ForeignCall),
    /// The query is over.
    Done(LeanResult<Q::Answer>),
}

/// A session: an imported environment and what has been done with it.
#[derive(Debug)]
pub struct LeanSession<'lean, 'c> {
    capabilities: &'c LeanCapabilities<'lean, 'c>,
    environment: Obj,
    stats: SessionStats,
}

/// A call of a meta service under way, whose response carries a `Resp`.
#[derive(Debug)]
pub struct MetaCall<Resp> {
    response: PhantomData<Resp>,
}

/// What a call of a meta service came to before Lean was asked.
#[derive(Debug)]
pub enum MetaStep<Resp> {
    /// The call is to be made.
    Call(MetaCall<Resp>, ForeignCall),
    /// The service is not offered; this is the response.
    Done(LeanMetaResponse<Resp>),
}

/// A call of an exported function under way, whose result is decoded as an `R`.
#[derive(Debug)]
pub struct CapabilityCall<R> {
    result: PhantomData<R>,
}

/// The message for a meta service that is not offered.
pub open spec fn unsupported_service_text(name: Seq<char>) -> Seq<char> {
    "meta service '"@ + name + "' is not exported by the loaded capability"@
}

/// Whether a session only differs in its stats from another, which are `stats`.
pub open spec fn only_stats_changed(
    before: LeanSession<'_, '_>,
    after: LeanSession<'_, '_>,
    stats: SessionStats,
) -> bool {
    &&& after.spec_stats() == stats
    &&& after.spec_environment() == before.spec_environment()
    &&& after.spec_symbols() == before.spec_symbols()
    &&& after.spec_library_path() == before.spec_library_path()
    &&& after.spec_globals() == before.spec_globals()
}

impl<'lean, 'c> LeanCapabilities<'lean, 'c> {
    /// Builds the call that imports modules into a fresh environment, over which
    /// a session is then started.
    pub fn session(&'c self, imports: Vec<String>) -> (r: ForeignCall)
        ensures
            imports_modules(r, *self, texts(imports@)),
    {
        LeanSession::import(self, imports)
    }
}

/// Whether `call` imports the modules `imports` with the project's search path.
pub open spec fn imports_modules(
    call: ForeignCall,
    capabilities: LeanCapabilities<'_, '_>,
    imports: Seq<Seq<char>>,
) -> bool {
    &&& calls(call, capabilities.spec_symbols().session_import)
    &&& args_of(call).len() == 2
    &&& passes_text(
        args_of(call)[0],
        joined_path(library_dir(capabilities.spec_root()), "lean"@),
    )
    &&& passes_texts(args_of(call)[1], imports)
}

impl<'lean, 'c> LeanSession<'lean, 'c> {
    /// The imported environment.
    pub closed spec fn spec_environment(self) -> Obj {
        self.environment
    }

    /// What the session has done.
    pub closed spec fn spec_stats(self) -> SessionStats {
        self.stats
    }

    /// The addresses that the session calls.
    pub closed spec fn spec_symbols(self) -> SessionSymbols {
        self.capabilities.spec_symbols()
    }

    /// Where the capability's library lies.
    pub closed spec fn spec_library_path(self) -> Seq<char> {
        self.capabilities.spec_library().path
    }

    /// The global variables among the symbols of the capability's library.
    pub closed spec fn spec_globals(self) -> Seq<Seq<char>> {
        self.capabilities.spec_library().globals
    }

    /// Builds the call that imports modules into a fresh environment.
    pub fn import(capabilities: &'c LeanCapabilities<'lean, 'c>, imports: Vec<String>) -> (r:
        ForeignCall)
        ensures
            imports_modules(r, *capabilities, texts(imports@)),
    {
        let search_path: String = capabilities.host().project().olean_search_path();
        let call: LeanExported<(String, Vec<String>), LeanIo<Obj>> =
            LeanExported::from_function_address(capabilities.symbols().session_import);
        assert(imports.model() =~= texts(imports@));
        call.call((search_path, imports))
    }

    /// Starts a session over the environment that the import replied with. The
    /// import is not counted.
    pub fn import_reply(capabilities: &'c LeanCapabilities<'lean, 'c>, reply: CallReply) -> (r:
        LeanResult<LeanSession<'lean, 'c>>)
        ensures
            match io_value::<Obj>(reply.value) {
                Ok(environment) => r matches Ok(session) && session.spec_environment()
                    == environment && session.spec_stats() == no_calls() && session.spec_symbols()
                    == capabilities.spec_symbols() && session.spec_library_path()
                    == capabilities.spec_library().path && session.spec_globals()
                    == capabilities.spec_library().globals,
                Err(err) => r matches Err(e) && e@ == err,
            },
    {
        match <LeanIo<Obj> as DecodeCallResult>::decode_c(reply.value) {
            Ok(environment) => Ok(LeanSession::from_environment(capabilities, environment)),
            Err(err) => Err(err),
        }
    }

    /// Starts a session over an environment.
    pub fn from_environment(
        capabilities: &'c LeanCapabilities<'lean, 'c>,
        environment: Obj,
    ) -> (r: LeanSession<'lean, 'c>)
        ensures
            r.spec_environment() == environment,
            r.spec_stats() == no_calls(),
            r.spec_symbols() == capabilities.spec_symbols(),
            r.spec_library_path() == capabilities.spec_library().path,
            r.spec_globals() == capabilities.spec_library().globals,
    {
        LeanSession { capabilities, environment, stats: SessionStats::default() }
    }

    /// Gives up the session for its environment.
    pub fn into_environment(self) -> (r: Obj)
        ensures
            r == self.spec_environment(),
    {
        self.environment
    }

    /// What the session has done.
    #[must_use]
    pub fn stats(&self) -> (r: SessionStats)
        ensures
            r == self.spec_stats(),
    {
        self.stats
    }

    /// Counts a call that took `elapsed` nanoseconds and carried `batch` items.
    pub fn record_call(&mut self, batch: u64, elapsed: u128)
        ensures
            only_stats_changed(
                *old(self),
                *final(self),
                recorded(old(self).spec_stats(), batch, elapsed),
            ),
    {
        let nanos: u64 = if elapsed <= u64::MAX as u128 {
            elapsed as u64
        } else {
            u64::MAX
        };
        self.stats = SessionStats {
            ffi_calls: add_saturating(self.stats.ffi_calls, 1),
            batch_items: add_saturating(self.stats.batch_items, batch),
            elapsed_ns: add_saturating(self.stats.elapsed_ns, nanos),
        };
    }

    /// Counts a call and decodes the result of its `IO` action.
    fn finish<T: TryFromLean>(&mut self, batch: u64, reply: CallReply) -> (r: LeanResult<T>)
        ensures
            only_stats_changed(
                *old(self),
                *final(self),
                recorded(old(self).spec_stats(), batch, reply.elapsed_nanos),
            ),
            yields(r, io_value::<T>(reply.value)),
    {
        self.record_call(batch, reply.elapsed_nanos);
        <LeanIo<T> as DecodeCallResult>::decode_c(reply.value)
    }

    /// Builds the call that makes a name of a text.
    pub fn make_name(&self, name: &str) -> (r: ForeignCall)
        ensures
            builds_name(r, self.spec_symbols(), name@),
    {
        let call: LeanExported<(&str,), LeanName> = LeanExported::from_function_address(
            self.capabilities.symbols().name_from_string,
        );
        call.call((name,))
    }

    /// Counts the call that made a name, and takes the name.
    pub fn make_name_reply(&mut self, reply: CallReply) -> (r: LeanResult<LeanName>)
        ensures
            only_stats_changed(
                *old(self),
                *final(self),
                recorded(old(self).spec_stats(), 0, reply.elapsed_nanos),
            ),
            r matches Ok(name) && name.model() == reply.value,
    {
        self.record_call(0, reply.elapsed_nanos);
        LeanName::from_c(reply.value)
    }

    fn name_query(&self, target: usize, name: LeanName) -> (r: ForeignCall)
        ensures
            passes_with_environment(r, target, self.spec_environment(), name.model()),
    {
        let call: LeanExported<(Obj, LeanName), LeanIo<Obj>> = LeanExported::from_function_address(
            target,
        );
        call.call((self.environment.clone(), name))
    }

    /// Starts the query of what `Q` asks of the declaration `name`.
    fn ask<Q: DeclarationQuestion>(&self, name: &str) -> (r: (NameQuery<Q>, ForeignCall))
        ensures
            starts_query(r, self.spec_symbols(), name@),
    {
        let query: NameQuery<Q> = NameQuery {
            name: name.to_owned(),
            named: false,
            question: PhantomData,
        };
        (query, self.make_name(name))
    }

    /// Starts looking a declaration up. One that is not there is an error.
    pub fn query_declaration(&self, name: &str) -> (r: (NameQuery<WholeDeclaration>, ForeignCall))
        ensures
            starts_query(r, self.spec_symbols(), name@),
    {
        self.ask::<WholeDeclaration>(name)
    }

    /// Starts asking for the type of a declaration. There is none where the
    /// declaration is not there.
    pub fn declaration_type(&self, name: &str) -> (r: (NameQuery<DeclarationType>, ForeignCall))
        ensures
            starts_query(r, self.spec_symbols(), name@),
    {
        self.ask::<DeclarationType>(name)
    }

    /// Starts asking for the kind of a declaration.
    pub fn declaration_kind(&self, name: &str) -> (r: (NameQuery<DeclarationKind>, ForeignCall))
        ensures
            starts_query(r, self.spec_symbols(), name@),
    {
        self.ask::<DeclarationKind>(name)
    }

    /// Starts rendering the name of a declaration.
    pub fn declaration_name(&self, name: &str) -> (r: (NameQuery<DeclarationName>, ForeignCall))
        ensures
            starts_query(r, self.spec_symbols(), name@),
    {
        self.ask::<DeclarationName>(name)
    }

    /// Takes the reply to the call of a query that was due, counts the call, and
    /// leads on to the query itself or to the answer.
    pub fn query_reply<Q: DeclarationQuestion>(
        &mut self,
        query: NameQuery<Q>,
        reply: CallReply,
    ) -> (r: QueryStep<Q>)
        ensures
            only_stats_changed(
                *old(self),
                *final(self),
                recorded(old(self).spec_stats(), 0, reply.elapsed_nanos),
            ),
            if query@.remaining_calls() == 1 {
                r matches QueryStep::Done(outcome) && yields(
                    outcome,
                    Q::outcome(query@.name, reply.value),
                )
            } else {
                r matches QueryStep::Call(next, call) && next@.name == query@.name
                    && next@.remaining_calls() == 1 && passes_with_environment(
                    call,
                    Q::target(old(self).spec_symbols()),
                    old(self).spec_environment(),
                    reply.value,
                )
            },
    {
        let NameQuery { name, named, question: _ } = query;
        if named {
            self.record_call(0, reply.elapsed_nanos);
            return QueryStep::Done(Q::answer(name.as_str(), reply.value));
        }
        match self.make_name_reply(reply) {
            Ok(handle) => {
                let call: ForeignCall = self.name_query(
                    Q::address(self.capabilities.symbols()),
                    handle,
                );
                QueryStep::Call(NameQuery { name, named: true, question: PhantomData }, call)
            },
            Err(err) => QueryStep::Done(Err(err)),
        }
    }

    /// Builds the call that lists the names of all declarations.
    pub fn list_declarations(&self) -> (r: ForeignCall)
        ensures
            calls(r, self.spec_symbols().env_list_declarations),
            args_of(r).len() == 1,
            shares(args_of(r)[0], self.spec_environment()),
    {
        let call: LeanExported<(Obj,), LeanIo<Vec<LeanName>>> = LeanExported::from_function_address(
            self.capabilities.symbols().env_list_declarations,
        );
        call.call((self.environment.clone(),))
    }

    /// Counts the call that listed the declarations, and takes their names.
    pub fn list_declarations_reply(&mut self, reply: CallReply) -> (r: LeanResult<Vec<LeanName>>)
        ensures
            only_stats_changed(
                *old(self),
                *final(self),
                recorded(old(self).spec_stats(), 0, reply.elapsed_nanos),
            ),
            yields(r, io_value::<Vec<LeanName>>(reply.value)),
    {
        self.finish::<Vec<LeanName>>(0, reply)
    }

    /// Builds the call that elaborates a term.
    pub fn elaborate(
        &self,
        source: &str,
        expected_type: Option<&LeanExpr>,
        options: &LeanElabOptions,
    ) -> (r: ForeignCall)
        ensures
            calls(r, self.spec_symbols().elaborate),
            args_of(r).len() == 7,
            shares(args_of(r)[0], self.spec_environment()),
            passes_text(args_of(r)[1], source@),
            shares_option(
                args_of(r)[2],
                match expected_type {
                    Some(expr) => Some(expr.model()),
                    None => None,
                },
            ),
            passes_text(args_of(r)[3], options@.namespace_context),
            passes_text(args_of(r)[4], options@.file_label),
            args_of(r)[5] == CArg::U64(options@.heartbeat_limit),
            args_of(r)[6] == CArg::Usize(options@.diagnostic_byte_limit),
    {
        let expected: Option<LeanExpr> = match expected_type {
            Some(expr) => Some(expr.clone()),
            None => None,
        };
        let call: LeanExported<
            (Obj, &str, Option<LeanExpr>, &str, &str, u64, usize),
            LeanIo<Result<LeanExpr, LeanElabFailure>>,
        > = LeanExported::from_function_address(self.capabilities.symbols().elaborate);
        call.call(
            (
                self.environment.clone(),
                source,
                expected,
                options.namespace_context_str(),
                options.file_label_str(),
                options.heartbeats(),
                options.diagnostic_byte_limit_usize(),
            ),
        )
    }

    /// Counts the call that elaborated a term, and takes the expression or the
    /// failure.
    pub fn elaborate_reply(&mut self, reply: CallReply) -> (r: LeanResult<
        Result<LeanExpr, LeanElabFailure>,
    >)
        ensures
            only_stats_changed(
                *old(self),
                *final(self),
                recorded(old(self).spec_stats(), 0, reply.elapsed_nanos),
            ),
            yields(r, elaboration_outcome(reply.value)),
    {
        self.finish::<Result<LeanExpr, LeanElabFailure>>(0, reply)
    }

    /// Builds the call that elaborates a declaration and has the kernel check it.
    pub fn kernel_check(&self, source: &str, options: &LeanElabOptions) -> (r: ForeignCall)
        ensures
            calls(r, self.spec_symbols().kernel_check),
            args_of(r).len() == 6,
            shares(args_of(r)[0], self.spec_environment()),
            passes_text(args_of(r)[1], source@),
            passes_text(args_of(r)[2], options@.namespace_context),
            passes_text(args_of(r)[3], options@.file_label),
            args_of(r)[4] == CArg::U64(options@.heartbeat_limit),
            args_of(r)[5] == CArg::Usize(options@.diagnostic_byte_limit),
    {
        let call: LeanExported<(Obj, &str, &str, &str, u64, usize), LeanIo<LeanKernelOutcome>> =
            LeanExported::from_function_address(self.capabilities.symbols().kernel_check);
        call.call(
            (
                self.environment.clone(),
                source,
                options.namespace_context_str(),
                options.file_label_str(),
                options.heartbeats(),
                options.diagnostic_byte_limit_usize(),
            ),
        )
    }

    /// Counts the call that had a declaration checked, and takes the judgement.
    pub fn kernel_check_reply(&mut self, reply: CallReply) -> (r: LeanResult<LeanKernelOutcome>)
        ensures
            only_stats_changed(
                *old(self),
                *final(self),
                recorded(old(self).spec_stats(), 0, reply.elapsed_nanos),
            ),
            yields(r, io_value::<LeanKernelOutcome>(reply.value)),
    {
        self.finish::<LeanKernelOutcome>(0, reply)
    }

    fn evidence_query(&self, target: usize, handle: &LeanEvidence) -> (r: ForeignCall)
        ensures
            passes_with_environment(r, target, self.spec_environment(), handle.model()),
    {
        let call: LeanExported<(Obj, LeanEvidence), LeanIo<Obj>> =
            LeanExported::from_function_address(target);
        call.call((self.environment.clone(), handle.clone()))
    }

    /// Builds the call that checks evidence again.
    pub fn check_evidence(&self, handle: &LeanEvidence) -> (r: ForeignCall)
        ensures
            passes_with_environment(
                r,
                self.spec_symbols().check_evidence,
                self.spec_environment(),
                handle.model(),
            ),
    {
        self.evidence_query(self.capabilities.symbols().check_evidence, handle)
    }

    /// Counts the call that checked evidence, and takes the status.
    pub fn check_evidence_reply(&mut self, reply: CallReply) -> (r: LeanResult<EvidenceStatus>)
        ensures
            only_stats_changed(
                *old(self),
                *final(self),
                recorded(old(self).spec_stats(), 0, reply.elapsed_nanos),
            ),
            yields(r, io_value::<EvidenceStatus>(reply.value)),
    {
        self.finish::<EvidenceStatus>(0, reply)
    }

    /// Builds the call that summarises evidence.
    pub fn summarize_evidence(&self, handle: &LeanEvidence) -> (r: ForeignCall)
        ensures
            passes_with_environment(
                r,
                self.spec_symbols().evidence_summary,
                self.spec_environment(),
                handle.model(),
            ),
    {
        self.evidence_query(self.capabilities.symbols().evidence_summary, handle)
    }

    /// Counts the call that summarised evidence, and takes the summary.
    pub fn summarize_evidence_reply(&mut self, reply: CallReply) -> (r: LeanResult<ProofSummary>)
        ensures
            only_stats_changed(
                *old(self),
                *final(self),
                recorded(old(self).spec_stats(), 0, reply.elapsed_nanos),
            ),
            yields(r, io_value::<ProofSummary>(reply.value)),
    {
        self.finish::<ProofSummary>(0, reply)
    }

    /// Builds the call of a meta service. A service that the capability does not
    /// export is answered without asking Lean.
    pub fn run_meta<Req: LeanAbi, Resp: TryFromLean>(
        &self,
        service: &LeanMetaService<Req, Resp>,
        request: Req,
        options: &LeanMetaOptions,
    ) -> (r: MetaStep<Resp>) where Req::CRepr: CValue
        ensures
            match self.spec_symbols().spec_meta_address(service.spec_name()) {
                None => r matches MetaStep::Done(response) && response.model()
                    == LeanMetaResponseView::<Resp::Model>::Unsupported(
                    LeanElabFailureView::Synthetic {
                        message: unsupported_service_text(service.spec_name()),
                        file: "<host>"@,
                    },
                ),
                Some(address) => r matches MetaStep::Call(_, call) && calls(call, address) && args_of(
                    call,
                ).len() == 5 && shares(args_of(call)[0], self.spec_environment()) && passes::<Req>(
                    request.model(),
                    args_of(call)[1],
                ) && args_of(call)[2] == CArg::U64(options@.heartbeat_limit) && args_of(call)[3]
                    == CArg::Usize(options@.diagnostic_byte_limit) && args_of(call)[4] == CArg::U8(
                    options@.transparency.spec_as_byte(),
                ),
            },
    {
        let address: usize = match self.capabilities.symbols().meta_address_by_name(
            service.name(),
        ) {
            Some(address) => address,
            None => {
                let message: String = cat3(
                    "meta service '",
                    service.name(),
                    "' is not exported by the loaded capability",
                );
                return MetaStep::Done(
                    LeanMetaResponse::Unsupported(
                        LeanElabFailure::synthetic(message, "<host>".to_owned()),
                    ),
                );
            },
        };
        let call: LeanExported<(Obj, Req, u64, usize, u8), LeanIo<LeanMetaResponse<Resp>>> =
            LeanExported::from_function_address(address);
        MetaStep::Call(
            MetaCall { response: PhantomData },
            call.call(
                (
                    self.environment.clone(),
                    request,
                    options.heartbeats(),
                    options.diagnostic_byte_limit_usize(),
                    options.transparency_byte(),
                ),
            ),
        )
    }

    /// Counts the call of a meta service, and takes its response.
    pub fn run_meta_reply<Resp: TryFromLean>(
        &mut self,
        _pending: MetaCall<Resp>,
        reply: CallReply,
    ) -> (r: LeanResult<LeanMetaResponse<Resp>>)
        ensures
            only_stats_changed(
                *old(self),
                *final(self),
                recorded(old(self).spec_stats(), 0, reply.elapsed_nanos),
            ),
            yields(r, io_value::<LeanMetaResponse<Resp>>(reply.value)),
    {
        self.finish::<LeanMetaResponse<Resp>>(0, reply)
    }

    /// Builds the call that elaborates several terms at once. For no terms there
    /// is nothing to call: the outcome is empty.
    pub fn elaborate_bulk(&self, sources: Vec<String>, options: &LeanElabOptions) -> (r:
        BulkElabStep)
        ensures
            if sources@.len() == 0 {
                r matches BulkElabStep::Done(outcomes) && outcomes@.len() == 0
            } else {
                r matches BulkElabStep::Call(pending, call) && pending@ == sources@.len() && calls(
                    call,
                    self.spec_symbols().elaborate_bulk,
                ) && args_of(call).len() == 6 && shares(
                    args_of(call)[0],
                    self.spec_environment(),
                ) && passes_texts(args_of(call)[1], texts(sources@)) && passes_text(
                    args_of(call)[2],
                    options@.namespace_context,
                ) && passes_text(args_of(call)[3], options@.file_label) && args_of(call)[4]
                    == CArg::U64(options@.heartbeat_limit) && args_of(call)[5] == CArg::Usize(
                    options@.diagnostic_byte_limit,
                )
            },
    {
        if sources.len() == 0 {
            return BulkElabStep::Done(Vec::new());
        }
        let pending: BulkElaboration = BulkElaboration { batch: sources.len() };
        let call: LeanExported<
            (Obj, Vec<String>, &str, &str, u64, usize),
            LeanIo<Vec<Result<LeanExpr, LeanElabFailure>>>,
        > = LeanExported::from_function_address(self.capabilities.symbols().elaborate_bulk);
        assert(sources.model() =~= texts(sources@));
        BulkElabStep::Call(
            pending,
            call.call(
                (
                    self.environment.clone(),
                    sources,
                    options.namespace_context_str(),
                    options.file_label_str(),
                    options.heartbeats(),
                    options.diagnostic_byte_limit_usize(),
                ),
            ),
        )
    }

    /// Counts the call that elaborated several terms, with one item for each that
    /// was sent, and takes their outcomes.
    pub fn elaborate_bulk_reply(&mut self, pending: BulkElaboration, reply: CallReply) -> (r:
        LeanResult<Vec<Result<LeanExpr, LeanElabFailure>>>)
        ensures
            only_stats_changed(
                *old(self),
                *final(self),
                recorded(old(self).spec_stats(), pending@ as u64, reply.elapsed_nanos),
            ),
            yields(r, bulk_elaboration_outcome(reply.value)),
    {
        self.finish::<Vec<Result<LeanExpr, LeanElabFailure>>>(pending.batch as u64, reply)
    }

    /// Builds the call of any function that the capability exports, given the
    /// loader's answer. A global variable is no function, and not called.
    pub fn call_capability<Args: LeanArgs, R: DecodeCallResult>(
        &self,
        name: &str,
        args: Args,
        found: Result<usize, String>,
    ) -> (r: LeanResult<(CapabilityCall<R>, ForeignCall)>)
        ensures
            if self.spec_globals().contains(name@) {
                r matches Err(err) && err@ == not_a_function_error(
                    name@,
                    self.spec_library_path(),
                    Args::spec_arity(),
                )
            } else {
                match found {
                    Ok(address) => r matches Ok((_, call)) && calls(call, address) && Args::passed(
                        args.model(),
                        args_of(call),
                    ),
                    Err(text) => r matches Err(err) && err@ == unknown_function_error(
                        name@,
                        self.spec_library_path(),
                        text@,
                    ),
                }
            },
    {
        let library: &LeanLibrary = self.capabilities.library();
        if library.globals().contains(name) {
            return Err(not_a_function(library, name, Args::arity()));
        }
        match library.resolve_function_symbol(name, found) {
            Ok(address) => {
                let call: LeanExported<Args, R> = LeanExported::from_function_address(address);
                Ok((CapabilityCall { result: PhantomData }, call.call(args)))
            },
            Err(err) => Err(err),
        }
    }

    /// Counts the call of an exported function, and decodes its result.
    pub fn call_capability_reply<R: DecodeCallResult>(
        &mut self,
        _pending: CapabilityCall<R>,
        value: R::CRepr,
        elapsed_nanos: u128,
    ) -> (r: LeanResult<R::Output>)
        ensures
            only_stats_changed(
                *old(self),
                *final(self),
                recorded(old(self).spec_stats(), 0, elapsed_nanos),
            ),
            yields(r, R::outcome(value)),
    {
        self.record_call(0, elapsed_nanos);
        R::decode_c(value)
    }
}

/// A bulk elaboration under way.
#[derive(Debug)]
pub struct BulkElaboration {
    batch: usize,
}

/// The number of terms that were sent.
impl View for BulkElaboration {
    type V = nat;

    closed spec fn view(&self) -> nat {
        self.batch as nat
    }
}

/// What a bulk elaboration came to before Lean was asked.
#[derive(Debug)]
pub enum BulkElabStep {
    /// The call is to be made.
    Call(BulkElaboration, ForeignCall),
    /// There was nothing to elaborate; these are the outcomes.
    Done(Vec<Result<LeanExpr, LeanElabFailure>>),
}

/// Whether `arg` is the array of the strings `items`.
pub open spec fn passes_texts(arg: CArg, items: Seq<Seq<char>>) -> bool {
    arg matches CArg::Object(o) && encodes_array::<String>(items, o)
}

/// The declarations in the first `n` slots of a bulk reply, or the message for
/// the first name without one.
pub open spec fn found_declarations(
    slots: Seq<Option<Obj>>,
    names: Seq<Seq<char>>,
    n: int,
) -> Result<Seq<Obj>, Seq<char>>
    decreases n,
{
    if n <= 0 {
        Ok(Seq::empty())
    } else {
        match found_declarations(slots, names, n - 1) {
            Ok(found) => match slots[n - 1] {
                Some(declaration) => Ok(found.push(declaration)),
                None => Err(missing_declaration_text(names[n - 1])),
            },
            Err(message) => Err(message),
        }
    }
}

/// The lesser of two lengths.
pub open spec fn lesser(a: nat, b: nat) -> int {
    if a <= b {
        a as int
    } else {
        b as int
    }
}

/// The outcome of a bulk query, given the reply to its last call.
pub open spec fn bulk_outcome(names: Seq<Seq<char>>, reply: Obj) -> Result<
    Seq<Obj>,
    LeanErrorView,
> {
    match io_value::<Vec<Option<LeanDeclaration>>>(reply) {
        Ok(slots) => match found_declarations(slots, names, lesser(slots.len(), names.len())) {
            Ok(found) => Ok(found),
            Err(message) => Err(abi_conversion_error(message)),
        },
        Err(err) => Err(err),
    }
}

/// A bulk query under way.
#[derive(Debug)]
pub struct BulkQuery {
    names: Vec<String>,
    handles: Vec<LeanName>,
}

/// Mathematical value of a [`BulkQuery`].
pub struct BulkQueryView {
    pub names: Seq<Seq<char>>,
    pub handles: Seq<Obj>,
}

impl View for BulkQuery {
    type V = BulkQueryView;

    closed spec fn view(&self) -> BulkQueryView {
        BulkQueryView { names: texts(self.names@), handles: models(self.handles@) }
    }
}

impl BulkQuery {
    #[verifier::type_invariant]
    spec fn consistent(self) -> bool {
        self@.well_formed()
    }
}

impl BulkQueryView {
    /// There are names, and no more handles than names.
    pub open spec fn well_formed(self) -> bool {
        0 < self.names.len() && self.handles.len() <= self.names.len()
    }

    /// The number of calls that are still to be made.
    pub open spec fn remaining_calls(self) -> int {
        self.names.len() - self.handles.len() + 1
    }

    /// Whether `call` is the call that is due: the next name, or the query itself
    /// once all names are there.
    pub open spec fn is_due(
        self,
        call: ForeignCall,
        symbols: SessionSymbols,
        environment: Obj,
    ) -> bool {
        if self.handles.len() < self.names.len() {
            builds_name(call, symbols, self.names[self.handles.len() as int])
        } else {
            &&& calls(call, symbols.env_query_declarations_bulk)
            &&& args_of(call).len() == 2
            &&& shares(args_of(call)[0], environment)
            &&& args_of(call)[1] matches CArg::Object(o) && o matches Obj::Array(elements)
                && elements@.len() == self.handles.len() && forall|i: int|
                0 <= i < elements@.len() ==> (#[trigger] elements@[i]).tree()
                    == self.handles[i].tree()
        }
    }
}

/// What a step of a bulk query came to.
#[derive(Debug)]
pub enum BulkStep {
    /// The next call is due.
    Call(BulkQuery, ForeignCall),
    /// The query is over.
    Done(LeanResult<Vec<LeanDeclaration>>),
}

impl<'lean, 'c> LeanSession<'lean, 'c> {
    /// Starts the bulk query of declarations. For no names there is nothing to
    /// call: the outcome is empty.
    pub fn query_declarations_bulk(&self, names: Vec<String>) -> (r: BulkStep)
        ensures
            if names@.len() == 0 {
                r matches BulkStep::Done(Ok(found)) && found@.len() == 0
            } else {
                r matches BulkStep::Call(query, call) && query@.names == texts(names@)
                    && query@.handles.len() == 0 && query@.remaining_calls() == names@.len() + 1
                    && query@.is_due(
                    call,
                    self.spec_symbols(),
                    self.spec_environment(),
                )
            },
    {
        if names.len() == 0 {
            return BulkStep::Done(Ok(Vec::new()));
        }
        let query: BulkQuery = BulkQuery { names, handles: Vec::new() };
        assert(query@.names[0] == names@[0]@);
        let call: ForeignCall = self.make_name(query.names[0].as_str());
        BulkStep::Call(query, call)
    }

    fn bulk_call(&self, handles: &Vec<LeanName>) -> (r: ForeignCall)
        ensures
            calls(r, self.spec_symbols().env_query_declarations_bulk),
            args_of(r).len() == 2,
            shares(args_of(r)[0], self.spec_environment()),
            args_of(r)[1] matches CArg::Object(o) && o matches Obj::Array(elements)
                && elements@.len() == handles@.len() && forall|i: int|
                0 <= i < elements@.len() ==> (#[trigger] elements@[i]).tree()
                    == handles@[i].model().tree(),
    {
        let mut names: Vec<LeanName> = Vec::new();
        let mut i: usize = 0;
        while i < handles.len()
            invariant
                i <= handles@.len(),
                names@.len() == i,
                forall|j: int|
                    0 <= j < i ==> (#[trigger] names@[j]).model().tree()
                        == handles@[j].model().tree(),
            decreases handles@.len() - i,
        {
            names.push(handles[i].clone());
            i = i + 1;
        }
        let call: LeanExported<
            (Obj, Vec<LeanName>),
            LeanIo<Vec<Option<LeanDeclaration>>>,
        > = LeanExported::from_function_address(
            self.capabilities.symbols().env_query_declarations_bulk,
        );
        let ghost sent = names@;
        let r: ForeignCall = call.call((self.environment.clone(), names));
        proof {
            let arg = args_of(r)[1];
            assert(passes::<Vec<LeanName>>(models(sent), arg));
            let elements = arg->Object_0->Array_0;
            assert forall|i: int| 0 <= i < elements@.len() implies (#[trigger] elements@[i]).tree()
                == handles@[i].model().tree() by {
                assert(elements@[i] == models(sent)[i]);
                assert(sent[i].model().tree() == handles@[i].model().tree());
            }
        }
        r
    }

    /// Takes the reply to the call of a bulk query that was due, counts the call,
    /// and leads on to the next call or to the outcome.
    pub fn query_declarations_bulk_reply(&mut self, query: BulkQuery, reply: CallReply) -> (r:
        BulkStep)
        ensures
            only_stats_changed(
                *old(self),
                *final(self),
                recorded(
                    old(self).spec_stats(),
                    bulk_batch(query@.names.len(), query@.remaining_calls()),
                    reply.elapsed_nanos,
                ),
            ),
            if query@.remaining_calls() == 1 {
                r matches BulkStep::Done(outcome) && yields(
                    outcome,
                    bulk_outcome(query@.names, reply.value),
                )
            } else {
                r matches BulkStep::Call(next, call) && next@.names == query@.names
                    && next@.handles == query@.handles.push(reply.value)
                    && next@.remaining_calls() == query@.remaining_calls() - 1 && next@.is_due(
                    call,
                    old(self).spec_symbols(),
                    old(self).spec_environment(),
                )
            },
    {
        proof {
            use_type_invariant(&query);
        }
        let ghost before = query@;
        let BulkQuery { names, handles } = query;
        if handles.len() < names.len() {
            let mut handles: Vec<LeanName> = handles;
            match self.make_name_reply(reply) {
                Ok(name) => {
                    handles.push(name);
                    assert(models(handles@) =~= before.handles.push(reply.value));
                },
                Err(err) => {
                    return BulkStep::Done(Err(err));
                },
            }
            let n: usize = handles.len();
            let call: ForeignCall = if n < names.len() {
                assert(before.names[n as int] == names@[n as int]@);
                self.make_name(names[n].as_str())
            } else {
                self.bulk_call(&handles)
            };
            let next: BulkQuery = BulkQuery { names, handles };
            return BulkStep::Call(next, call);
        }
        let slots: Vec<Option<LeanDeclaration>> = match self.finish::<
            Vec<Option<LeanDeclaration>>,
        >(names.len() as u64, reply) {
            Ok(slots) => slots,
            Err(err) => {
                return BulkStep::Done(Err(err));
            },
        };
        BulkStep::Done(collect_found(slots, &names))
    }
}

/// Pairs the slots of a bulk reply with the names, and takes the declarations up
/// to the first name without one, which is an error.
fn collect_found(slots: Vec<Option<LeanDeclaration>>, names: &Vec<String>) -> (r: LeanResult<
    Vec<LeanDeclaration>,
>)
    ensures
        match found_declarations(
            models(slots@),
            texts(names@),
            lesser(slots@.len(), names@.len()),
        ) {
            Ok(found) => r matches Ok(declarations) && models(declarations@) == found,
            Err(message) => r matches Err(err) && err@ == abi_conversion_error(message),
        },
{
    let ghost all = slots@;
    let ghost wanted = models(all);
    let ghost asked = texts(names@);
    let ghost end = lesser(all.len(), names@.len());
    let mut out: Vec<LeanDeclaration> = Vec::new();
    let mut i: usize = 0;
    assert(models(out@) =~= Seq::empty());
    for slot in it: slots
        invariant
            it.seq() == all,
            wanted == models(all),
            asked == texts(names@),
            end == lesser(all.len(), names@.len()),
            i == lesser(it.index() as nat, names@.len()),
            i <= names@.len(),
            found_declarations(wanted, asked, i as int) == Ok::<Seq<Obj>, Seq<char>>(
                models(out@),
            ),
    {
        if i < names.len() {
            let ghost before = models(out@);
            assert(wanted[i as int] == slot.model());
            match slot {
                Some(declaration) => {
                    out.push(declaration);
                    assert(models(out@) =~= before.push(declaration.model()));
                },
                None => {
                    proof {
                        assert(asked[i as int] == names@[i as int]@);
                        assert(found_declarations(wanted, asked, i as int + 1) is Err);
                        lemma_failed_query(wanted, asked, i as int + 1, end);
                    }
                    return Err(missing_declaration(names[i].as_str()));
                },
            }
            i = i + 1;
        }
    }
    Ok(out)
}

proof fn lemma_failed_query(
    slots: Seq<Option<Obj>>,
    names: Seq<Seq<char>>,
    n: int,
    m: int,
)
    requires
        0 <= n <= m,
        found_declarations(slots, names, n) is Err,
    ensures
        found_declarations(slots, names, m) == found_declarations(slots, names, n),
    decreases m,
{
    if n < m {
        lemma_failed_query(slots, names, n, m - 1);
    }
}

/// The stats after calls that took the given times and carried no items.
pub open spec fn recorded_all(stats: SessionStats, elapsed: Seq<u128>) -> SessionStats
    decreases elapsed.len(),
{
    if elapsed.len() == 0 {
        stats
    } else {
        recorded(recorded_all(stats, elapsed.drop_last()), 0, elapsed.last())
    }
}

/// The items that a call of a bulk query of `n` names carries, with the given
/// number of calls still to be made: all of them in the last call, none before.
pub open spec fn bulk_batch(n: nat, remaining_calls: int) -> u64 {
    if remaining_calls == 1 {
        n as u64
    } else {
        0
    }
}

/// The stats after the first calls of a bulk query of `n` names, which took the
/// given times.
pub open spec fn bulk_stats(stats: SessionStats, n: nat, elapsed: Seq<u128>) -> SessionStats
    decreases elapsed.len(),
{
    if elapsed.len() == 0 {
        stats
    } else {
        recorded(
            bulk_stats(stats, n, elapsed.drop_last()),
            bulk_batch(n, n + 1 - (elapsed.len() - 1)),
            elapsed.last(),
        )
    }
}

proof fn lemma_bulk_stats(stats: SessionStats, n: nat, elapsed: Seq<u128>)
    requires
        elapsed.len() <= n,
    ensures
        bulk_stats(stats, n, elapsed).ffi_calls == saturating_sum(
            stats.ffi_calls,
            elapsed.len() as int,
        ),
        bulk_stats(stats, n, elapsed).batch_items == stats.batch_items,
    decreases elapsed.len(),
{
    if elapsed.len() > 0 {
        lemma_bulk_stats(stats, n, elapsed.drop_last());
    }
}

proof fn lemma_recorded_all(stats: SessionStats, elapsed: Seq<u128>)
    ensures
        recorded_all(stats, elapsed).ffi_calls == saturating_sum(
            stats.ffi_calls,
            elapsed.len() as int,
        ),
        recorded_all(stats, elapsed).batch_items == stats.batch_items,
    decreases elapsed.len(),
{
    if elapsed.len() > 0 {
        lemma_recorded_all(stats, elapsed.drop_last());
    }
}

/// A bulk query of `n` names costs `n + 1` calls and counts `n` items; looking
/// the same names up one by one costs `2 * n` calls and counts no items. Counts
/// that reach their limit stay there.
pub proof fn bulk_query_saves_calls(
    stats: SessionStats,
    n: nat,
    bulk_times: Seq<u128>,
    single_times: Seq<u128>,
)
    requires
        0 < n <= usize::MAX,
        bulk_times.len() == n + 1,
        single_times.len() == 2 * n,
    ensures
        bulk_stats(stats, n, bulk_times).ffi_calls == saturating_sum(
            stats.ffi_calls,
            n as int + 1,
        ),
        bulk_stats(stats, n, bulk_times).batch_items == saturating_sum(
            stats.batch_items,
            n as int,
        ),
        recorded_all(stats, single_times).ffi_calls == saturating_sum(
            stats.ffi_calls,
            2 * n as int,
        ),
        recorded_all(stats, single_times).batch_items == stats.batch_items,
{
    lemma_bulk_stats(stats, n, bulk_times.drop_last());
    lemma_recorded_all(stats, single_times);
}

/// Counting a call never lowers any count.
pub proof fn stats_never_decrease(stats: SessionStats, batch: u64, elapsed: u128)
    ensures
        recorded(stats, batch, elapsed).ffi_calls >= stats.ffi_calls,
        recorded(stats, batch, elapsed).batch_items >= stats.batch_items,
        recorded(stats, batch, elapsed).elapsed_ns >= stats.elapsed_ns,
        stats.ffi_calls < u64::MAX ==> recorded(stats, batch, elapsed).ffi_calls
            == stats.ffi_calls + 1,
{
}

proof fn lemma_found_declarations(slots: Seq<Option<Obj>>, names: Seq<Seq<char>>, n: int)
    requires
        0 <= n <= slots.len(),
        n <= names.len(),
        forall|i: int| 0 <= i < n ==> (#[trigger] slots[i]) is Some,
    ensures
        found_declarations(slots, names, n) == Ok::<Seq<Obj>, Seq<char>>(
            Seq::new(n as nat, |i: int| slots[i]->0),
        ),
    decreases n,
{
    if n > 0 {
        lemma_found_declarations(slots, names, n - 1);
        assert(Seq::new(n as nat, |i: int| slots[i]->0) =~= Seq::new(
            (n - 1) as nat,
            |i: int| slots[i]->0,
        ).push(slots[n - 1]->0));
    } else {
        assert(Seq::new(0, |i: int| slots[i]->0) =~= Seq::<Obj>::empty());
    }
}

/// A bulk query answers as the single queries would. Given that Lean finds in
/// bulk what it finds one by one, the outcome is all declarations in the order of
/// their names where every single query finds one, and the error of the first
/// single query that does not otherwise.
pub proof fn bulk_query_agrees_with_single_queries(
    names: Seq<Seq<char>>,
    bulk_reply: Obj,
    single_replies: Seq<Obj>,
    slots: Seq<Option<Obj>>,
    missing: int,
)
    requires
        slots.len() == names.len(),
        single_replies.len() == names.len(),
        io_value::<Vec<Option<LeanDeclaration>>>(bulk_reply) == Ok::<
            Seq<Option<Obj>>,
            LeanErrorView,
        >(slots),
        forall|i: int|
            0 <= i < names.len() ==> io_value::<Option<LeanDeclaration>>(
                #[trigger] single_replies[i],
            ) == Ok::<Option<Obj>, LeanErrorView>(slots[i]),
        0 <= missing <= names.len(),
        forall|i: int|
            0 <= i < missing ==> declaration_outcome(names[i], #[trigger] single_replies[i]) is Ok,
        missing < names.len() ==> declaration_outcome(
            names[missing],
            single_replies[missing],
        ) is Err,
    ensures
        missing == names.len() ==> bulk_outcome(names, bulk_reply) == Ok::<Seq<Obj>, LeanErrorView>(
            Seq::new(
                names.len(),
                |i: int| declaration_outcome(names[i], single_replies[i])->Ok_0,
            ),
        ),
        missing < names.len() ==> bulk_outcome(names, bulk_reply) == Err::<
            Seq<Obj>,
            LeanErrorView,
        >(declaration_outcome(names[missing], single_replies[missing])->Err_0),
{
    assert forall|i: int| 0 <= i < missing implies (#[trigger] slots[i]) is Some by {
        assert(declaration_outcome(names[i], single_replies[i]) is Ok);
    }
    lemma_found_declarations(slots, names, missing);
    if missing < names.len() {
        assert(slots[missing] is None);
        lemma_failed_query(slots, names, missing + 1, names.len() as int);
    } else {
        assert forall|i: int| 0 <= i < names.len() implies slots[i]->0 == (
        #[trigger] declaration_outcome(names[i], single_replies[i]))->Ok_0 by {
            assert(slots[i] is Some);
            assert(io_value::<Option<LeanDeclaration>>(single_replies[i]) is Ok);
        }
        assert(Seq::new(names.len(), |i: int| slots[i]->0) =~= Seq::new(
            names.len(),
            |i: int| declaration_outcome(names[i], single_replies[i])->Ok_0,
        ));
    }
}

/// Bulk elaboration is a fold over single elaboration. Given that each element of
/// the bulk reply decodes as the reply for its source alone does, the outcome is
/// that of every single elaboration, in the order of the sources, where each of
/// them decodes, and the error of the first that does not otherwise. The replies
/// before `failing` are given to decode.
pub proof fn bulk_elaboration_agrees_with_single_elaborations(
    bulk_reply: Obj,
    elements: Vec<Obj>,
    single_replies: Seq<Obj>,
    failing: int,
)
    requires
        io_outcome(bulk_reply) == Ok::<Obj, LeanErrorView>(Obj::Array(elements)),
        single_replies.len() == elements@.len(),
        forall|i: int|
            0 <= i < elements@.len() ==> elaboration_outcome(#[trigger] single_replies[i])
                == conversion_outcome(
                <Result<LeanExpr, LeanElabFailure> as TryFromLean>::decoded(elements@[i]),
            ),
        0 <= failing <= single_replies.len(),
        forall|i: int|
            0 <= i < failing ==> elaboration_outcome(#[trigger] single_replies[i]) is Ok,
        failing < single_replies.len() ==> elaboration_outcome(single_replies[failing]) is Err,
    ensures
        failing == single_replies.len() ==> bulk_elaboration_outcome(bulk_reply) == Ok::<
            Seq<Result<Obj, LeanElabFailureView>>,
            LeanErrorView,
        >(Seq::new(single_replies.len(), |i: int| elaboration_outcome(single_replies[i])->Ok_0)),
        failing < single_replies.len() ==> bulk_elaboration_outcome(bulk_reply) == Err::<
            Seq<Result<Obj, LeanElabFailureView>>,
            LeanErrorView,
        >(elaboration_outcome(single_replies[failing])->Err_0),
{
    let all = elements@;
    assert forall|i: int| 0 <= i < failing implies <Result<
        LeanExpr,
        LeanElabFailure,
    > as TryFromLean>::decoded(#[trigger] all[i]) is Ok by {
        assert(elaboration_outcome(single_replies[i]) is Ok);
    }
    if failing < all.len() {
        assert(elaboration_outcome(single_replies[failing]) is Err);
    }
    arrays_decode_elementwise::<Result<LeanExpr, LeanElabFailure>>(all, failing);
    if failing == all.len() {
        let decoded = Seq::new(
            all.len(),
            |i: int| <Result<LeanExpr, LeanElabFailure> as TryFromLean>::decoded(all[i])->Ok_0,
        );
        assert forall|i: int| 0 <= i < all.len() implies #[trigger] decoded[i]
            == elaboration_outcome(single_replies[i])->Ok_0 by {
            assert(elaboration_outcome(single_replies[i]) is Ok);
        }
        assert(decoded =~= Seq::new(
            single_replies.len(),
            |i: int| elaboration_outcome(single_replies[i])->Ok_0,
        ));
    }
}

/// A call counts one, its items and its nanoseconds; a count that would go beyond its
/// greatest value stays there. A session that has done nothing has counted nothing.
pub proof fn calls_are_counted(stats: SessionStats, batch: u64, elapsed: u128)
    ensures
        ({
            let after = recorded(stats, batch, elapsed);
            let limit = 0xffff_ffff_ffff_ffff;
            &&& after.ffi_calls == if stats.ffi_calls + 1 <= limit {
                stats.ffi_calls + 1
            } else {
                limit
            }
            &&& after.batch_items == if stats.batch_items + batch <= limit {
                stats.batch_items + batch
            } else {
                limit
            }
            &&& after.elapsed_ns == if stats.elapsed_ns + elapsed <= limit {
                stats.elapsed_ns + elapsed
            } else {
                limit
            }
        }),
        no_calls().ffi_calls == 0,
        no_calls().batch_items == 0,
        no_calls().elapsed_ns == 0,
{
}

/// What is passed of an object, a text, an optional object and a list of texts: an
/// object of the same content, the string of the text's UTF-8 bytes, the scalar zero or
/// a constructor with tag one around such an object, and the array of such strings in
/// order.
pub proof fn arguments_stand_for_what_is_passed(
    arg: CArg,
    obj: Obj,
    text: Seq<char>,
    items: Seq<Seq<char>>,
)
    ensures
        shares(arg, obj) <==> (arg matches CArg::Object(o) && o.tree() == obj.tree()),
        passes_text(arg, text) <==> (arg matches CArg::Object(Obj::Str(bytes)) && bytes@
            == encode_utf8(text)),
        shares_option(arg, None) <==> arg == CArg::Object(Obj::Scalar(0)),
        shares_option(arg, Some(obj)) <==> (arg matches CArg::Object(Obj::Ctor(ctor)) && ctor.tag
            == 1 && ctor.scalars@.len() == 0 && ctor.objects@.len() == 1
            && ctor.objects@[0].tree() == obj.tree()),
        passes_texts(arg, items) <==> (arg matches CArg::Object(Obj::Array(elements))
            && elements@.len() == items.len() && forall|i: int|
            0 <= i < items.len() ==> (#[trigger] elements@[i] matches Obj::Str(bytes) && bytes@
                == encode_utf8(items[i]))),
{
    if let CArg::Object(Obj::Array(elements)) = arg {
        if elements@.len() == items.len() {
            assert forall|i: int| 0 <= i < items.len() implies <String as IntoLean>::encodes(
                items[i],
                #[trigger] elements@[i],
            ) == (elements@[i] matches Obj::Str(bytes) && bytes@ == encode_utf8(items[i])) by {
            }
            if passes_texts(arg, items) {
                assert forall|i: int| 0 <= i < items.len() implies (
                #[trigger] elements@[i] matches Obj::Str(bytes) && bytes@ == encode_utf8(
                    items[i],
                )) by {
                    assert(<String as IntoLean>::encodes(items[i], elements@[i]));
                }
            }
        }
    }
}

/// A call is made at the address it was built for, with its arguments in order; a name
/// is built of one text, and a query passes the environment and then the object.
pub proof fn calls_go_to_their_address(
    call: ForeignCall,
    target: usize,
    symbols: SessionSymbols,
    name: Seq<char>,
    environment: Obj,
    obj: Obj,
)
    ensures
        calls(call, target) <==> (call matches ForeignCall::Invoke { address, .. } && address
            == target),
        call matches ForeignCall::Invoke { args, .. } ==> args_of(call) == args@,
        call is ReadGlobal ==> args_of(call).len() == 0,
        builds_name(call, symbols, name) <==> (call matches ForeignCall::Invoke { address, args }
            && address == symbols.name_from_string && args@.len() == 1 && passes_text(
            args@[0],
            name,
        )),
        passes_with_environment(call, target, environment, obj) <==> (call matches ForeignCall::Invoke {
            address,
            args,
        } && address == target && args@.len() == 2 && shares(args@[0], environment) && shares(
            args@[1],
            obj,
        )),
{
}

/// An import passes the search path of the project's compiled modules, and then the
/// modules in order.
pub proof fn imports_pass_search_path_and_modules(
    call: ForeignCall,
    capabilities: LeanCapabilities<'_, '_>,
    imports: Seq<Seq<char>>,
)
    requires
        imports_modules(call, capabilities, imports),
        capabilities.spec_root().len() > 0,
        capabilities.spec_root()[capabilities.spec_root().len() - 1] != '/',
    ensures
        call matches ForeignCall::Invoke { address, args } && address
            == capabilities.spec_symbols().session_import && args@.len() == 2 && passes_text(
            args@[0],
            capabilities.spec_root() + "/.lake/build/lib/lean"@,
        ) && passes_texts(args@[1], imports),
{
    lake_layout(capabilities.spec_root(), Seq::empty(), Seq::empty(), false);
}

/// Each question is put to the function of its own.
pub proof fn questions_have_their_own_functions(symbols: SessionSymbols)
    ensures
        <WholeDeclaration as DeclarationQuestion>::target(symbols)
            == symbols.env_query_declaration,
        <DeclarationType as DeclarationQuestion>::target(symbols) == symbols.env_declaration_type,
        <DeclarationKind as DeclarationQuestion>::target(symbols) == symbols.env_declaration_kind,
        <DeclarationName as DeclarationQuestion>::target(symbols) == symbols.env_declaration_name,
{
}

/// The answers to the questions are the values of the `IO` actions: a declaration that
/// is not there has no type, but is an error when it is itself asked for, and that error
/// names it.
pub proof fn missing_declarations_are_errors_only_where_asked_for(name: Seq<char>, reply: Obj)
    ensures
        match io_value::<Option<LeanDeclaration>>(reply) {
            Ok(Some(declaration)) => <WholeDeclaration as DeclarationQuestion>::outcome(name, reply)
                == Ok::<Obj, LeanErrorView>(declaration),
            Ok(None) => <WholeDeclaration as DeclarationQuestion>::outcome(name, reply) == Err::<
                Obj,
                LeanErrorView,
            >(
                abi_conversion_error(
                    "declaration '"@ + name + "' not found in imported environment"@,
                ),
            ),
            Err(err) => <WholeDeclaration as DeclarationQuestion>::outcome(name, reply) == Err::<
                Obj,
                LeanErrorView,
            >(err),
        },
        <DeclarationType as DeclarationQuestion>::outcome(name, reply) == io_value::<
            Option<LeanExpr>,
        >(reply),
        <DeclarationKind as DeclarationQuestion>::outcome(name, reply) == io_value::<String>(reply),
        <DeclarationName as DeclarationQuestion>::outcome(name, reply) == io_value::<String>(reply),
{
}

/// A query takes two calls, one that builds the name and one that asks; it starts with
/// the first.
pub proof fn queries_take_two_calls<Q: DeclarationQuestion>(
    view: NameQueryView,
    r: (NameQuery<Q>, ForeignCall),
    symbols: SessionSymbols,
    name: Seq<char>,
)
    ensures
        !view.named ==> view.remaining_calls() == 2,
        view.named ==> view.remaining_calls() == 1,
        starts_query(r, symbols, name) <==> r.0@.name == name && !r.0@.named && builds_name(
            r.1,
            symbols,
            name,
        ),
{
}

/// Counting a call changes nothing of a session but its stats.
pub proof fn counting_leaves_the_session_alone(
    before: LeanSession<'_, '_>,
    after: LeanSession<'_, '_>,
    stats: SessionStats,
)
    requires
        only_stats_changed(before, after, stats),
    ensures
        after.spec_stats() == stats,
        after.spec_environment() == before.spec_environment(),
        after.spec_symbols() == before.spec_symbols(),
        after.spec_library_path() == before.spec_library_path(),
        after.spec_globals() == before.spec_globals(),
{
}

/// A bulk query of `n` names builds every name, in order, before it asks once for all
/// of them; the names are passed in order, and all items are counted with the last call.
pub proof fn bulk_queries_build_all_names_first(
    view: BulkQueryView,
    call: ForeignCall,
    symbols: SessionSymbols,
    environment: Obj,
)
    requires
        view.well_formed(),
        view.is_due(call, symbols, environment),
    ensures
        view.handles.len() < view.names.len() ==> builds_name(
            call,
            symbols,
            view.names[view.handles.len() as int],
        ) && view.remaining_calls() == view.names.len() - view.handles.len() + 1,
        view.handles.len() == view.names.len() ==> view.remaining_calls() == 1 && (
        call matches ForeignCall::Invoke { address, args } && address
            == symbols.env_query_declarations_bulk && args@.len() == 2 && shares(
            args@[0],
            environment,
        ) && (args@[1] matches CArg::Object(Obj::Array(elements)) && elements@.len()
            == view.names.len() && forall|i: int|
            0 <= i < elements@.len() ==> (#[trigger] elements@[i]).tree()
                == view.handles[i].tree())),
        view.names.len() <= u64::MAX ==> bulk_batch(view.names.len(), 1) == view.names.len(),
        view.remaining_calls() > 1 ==> bulk_batch(view.names.len(), view.remaining_calls()) == 0,
{
}

/// A bulk reply is paired with the names as far as both go: the outcome is all
/// declarations in order, or the error of the first name without one. The slots before
/// `missing` are given to hold declarations; it is where one of the two ends, or the
/// position of an empty slot.
pub proof fn bulk_replies_are_paired_with_their_names(
    names: Seq<Seq<char>>,
    reply: Obj,
    slots: Seq<Option<Obj>>,
    missing: int,
)
    requires
        io_value::<Vec<Option<LeanDeclaration>>>(reply) == Ok::<Seq<Option<Obj>>, LeanErrorView>(
            slots,
        ),
        0 <= missing <= slots.len(),
        missing <= names.len(),
        forall|i: int| 0 <= i < missing ==> (#[trigger] slots[i]) is Some,
        missing < slots.len() && missing < names.len() ==> slots[missing] is None,
    ensures
        missing == slots.len() || missing == names.len() ==> (bulk_outcome(names, reply) matches Ok(
            found,
        ) && found.len() == missing && forall|i: int|
            0 <= i < missing ==> Some(#[trigger] found[i]) == slots[i]),
        missing < slots.len() && missing < names.len() ==> bulk_outcome(names, reply) == Err::<
            Seq<Obj>,
            LeanErrorView,
        >(
            abi_conversion_error(
                "declaration '"@ + names[missing] + "' not found in imported environment"@,
            ),
        ),
{
    lemma_found_declarations(slots, names, missing);
    if missing < slots.len() && missing < names.len() {
        assert(slots[missing] is None);
        lemma_failed_query(slots, names, missing + 1, lesser(slots.len(), names.len()));
    } else {
        let found = Seq::new(missing as nat, |i: int| slots[i]->0);
        assert forall|i: int| 0 <= i < missing implies Some(#[trigger] found[i]) == slots[i] by {
            assert(slots[i] is Some);
        }
    }
}

/// A reply that is an error is the outcome as it is, of single and bulk queries and of
/// elaborations alike.
pub proof fn failed_replies_are_passed_on(names: Seq<Seq<char>>, reply: Obj)
    requires
        io_outcome(reply) is Err,
    ensures
        bulk_outcome(names, reply) == Err::<Seq<Obj>, LeanErrorView>(io_outcome(reply)->Err_0),
        elaboration_outcome(reply) == Err::<Result<Obj, LeanElabFailureView>, LeanErrorView>(
            io_outcome(reply)->Err_0,
        ),
        bulk_elaboration_outcome(reply) == Err::<
            Seq<Result<Obj, LeanElabFailureView>>,
            LeanErrorView,
        >(io_outcome(reply)->Err_0),
{
}

/// An elaboration that Lean carried out gives its expression or Lean's account of the
/// failure.
pub proof fn elaborations_give_expression_or_account(reply: Obj, obj: Obj)
    requires
        io_outcome(reply) == Ok::<Obj, LeanErrorView>(obj),
    ensures
        elaboration_outcome(reply) is Ok <==> (obj matches Obj::Ctor(ctor) && ctor.objects@.len()
            == 1 && ctor.tag <= 1),
        (obj matches Obj::Ctor(ctor) && ctor.objects@.len() == 1 && ctor.tag == 1)
            ==> elaboration_outcome(reply) == Ok::<
            Result<Obj, LeanElabFailureView>,
            LeanErrorView,
        >(Ok(obj->Ctor_0.objects@[0])),
        (obj matches Obj::Ctor(ctor) && ctor.objects@.len() == 1 && ctor.tag == 0)
            ==> elaboration_outcome(reply) == Ok::<
            Result<Obj, LeanElabFailureView>,
            LeanErrorView,
        >(Err(LeanElabFailureView::Reported(obj->Ctor_0.objects@[0]))),
{
    outcomes_are_read_by_their_tag::<LeanElabFailure, LeanExpr>(obj);
}

/// A meta service that is not offered is named.
pub proof fn unsupported_services_are_named(name: Seq<char>)
    ensures
        unsupported_service_text(name) == "meta service '"@ + name
            + "' is not exported by the loaded capability"@,
{
}

} // verus!
