//! The error boundary: what can go wrong, at which stage, under which
//! stable diagnostic code, with a message of bounded size.
//!
//! Every [`LeanError`] is either an exception that Lean itself raised
//! ([`LeanException`]) or a failure of the hosting stack ([`HostFailure`]).
//! Messages never exceed [`LEAN_ERROR_MESSAGE_LIMIT`] bytes; that bound is a
//! type invariant of both carriers.

use vstd::prelude::*;
use vstd::string::*;
use vstd::utf8::encode_utf8;

use crate::text::{
    bounded, bounding_keeps_the_longest_prefix, cat2, cat4, cat6, lemma_bounded, truncate_utf8,
    utf8_len,
};

pub mod capture;
pub mod init;
pub mod io;
pub mod panic_guard;
pub mod redact;

verus! {

/// Byte limit on every error message.
pub const LEAN_ERROR_MESSAGE_LIMIT: usize = 4096;

/// Result of a fallible operation of this library.
pub type LeanResult<T> = Result<T, LeanError>;

/// `message` as it is stored in an error: its longest prefix within the limit.
pub open spec fn bounded_message(message: Seq<char>) -> Seq<char> {
    bounded(message, LEAN_ERROR_MESSAGE_LIMIT as nat)
}

/// Cuts `s` to [`LEAN_ERROR_MESSAGE_LIMIT`] bytes at a character boundary.
pub fn bound_message(s: String) -> (r: String)
    ensures
        r@ == bounded_message(s@),
        utf8_len(r@) <= LEAN_ERROR_MESSAGE_LIMIT,
        4 * s@.len() <= LEAN_ERROR_MESSAGE_LIMIT ==> r@ == s@,
{
    truncate_utf8(s, LEAN_ERROR_MESSAGE_LIMIT)
}

/// Stage of the hosting stack at which a failure occurred.
#[non_exhaustive]
#[derive(Copy, Clone, Debug, PartialEq, Eq, Structural)]
pub enum HostStage {
    /// Process-wide runtime initialization.
    RuntimeInit,
    /// Conversion of a value between Rust and Lean.
    Conversion,
    /// A callback panicked and the panic was contained.
    CallbackPanic,
    /// Symbol and initializer resolution.
    Link,
    /// Opening or initializing a library or a project.
    Load,
    /// An internal invariant.
    Internal,
}

impl HostStage {
    /// The variant's name.
    pub open spec fn spec_name(self) -> Seq<char> {
        match self {
            HostStage::RuntimeInit => "RuntimeInit"@,
            HostStage::Conversion => "Conversion"@,
            HostStage::CallbackPanic => "CallbackPanic"@,
            HostStage::Link => "Link"@,
            HostStage::Load => "Load"@,
            HostStage::Internal => "Internal"@,
        }
    }

    /// The variant's name, as it appears in rendered failures.
    #[must_use]
    pub fn name(self) -> (r: &'static str)
        ensures
            r@ == self.spec_name(),
    {
        match self {
            HostStage::RuntimeInit => "RuntimeInit",
            HostStage::Conversion => "Conversion",
            HostStage::CallbackPanic => "CallbackPanic",
            HostStage::Link => "Link",
            HostStage::Load => "Load",
            HostStage::Internal => "Internal",
        }
    }
}

/// Stable identifier of a class of failures.
#[non_exhaustive]
#[derive(Copy, Clone, Debug, Hash, PartialEq, Eq, Structural)]
pub enum LeanDiagnosticCode {
    /// The process-wide Lean runtime could not be initialized.
    RuntimeInit,
    /// A linkable artefact was missing, malformed or mismatched.
    Linking,
    /// A capability dylib could not be opened, or its initializer failed.
    ModuleInit,
    /// A symbol was not present, or had the wrong shape, in the loaded dylib.
    SymbolLookup,
    /// A value could not be converted between Rust and Lean.
    AbiConversion,
    /// Lean raised through its `IO` error channel.
    LeanException,
    /// Parsing or elaboration produced diagnostics.
    Elaboration,
    /// The loaded capability does not expose the requested service.
    Unsupported,
    /// An internal invariant tripped.
    Internal,
}

impl LeanDiagnosticCode {
    /// The stable identifier.
    pub open spec fn spec_as_str(self) -> Seq<char> {
        match self {
            LeanDiagnosticCode::RuntimeInit => "lean_rs.runtime_init"@,
            LeanDiagnosticCode::Linking => "lean_rs.linking"@,
            LeanDiagnosticCode::ModuleInit => "lean_rs.module_init"@,
            LeanDiagnosticCode::SymbolLookup => "lean_rs.symbol_lookup"@,
            LeanDiagnosticCode::AbiConversion => "lean_rs.abi_conversion"@,
            LeanDiagnosticCode::LeanException => "lean_rs.lean_exception"@,
            LeanDiagnosticCode::Elaboration => "lean_rs.elaboration"@,
            LeanDiagnosticCode::Unsupported => "lean_rs.unsupported"@,
            LeanDiagnosticCode::Internal => "lean_rs.internal"@,
        }
    }

    /// The stable identifier, of the form `lean_rs.<code>`.
    #[must_use]
    pub fn as_str(self) -> (r: &'static str)
        ensures
            r@ == self.spec_as_str(),
    {
        match self {
            LeanDiagnosticCode::RuntimeInit => "lean_rs.runtime_init",
            LeanDiagnosticCode::Linking => "lean_rs.linking",
            LeanDiagnosticCode::ModuleInit => "lean_rs.module_init",
            LeanDiagnosticCode::SymbolLookup => "lean_rs.symbol_lookup",
            LeanDiagnosticCode::AbiConversion => "lean_rs.abi_conversion",
            LeanDiagnosticCode::LeanException => "lean_rs.lean_exception",
            LeanDiagnosticCode::Elaboration => "lean_rs.elaboration",
            LeanDiagnosticCode::Unsupported => "lean_rs.unsupported",
            LeanDiagnosticCode::Internal => "lean_rs.internal",
        }
    }

    /// The one-line description.
    pub open spec fn spec_description(self) -> Seq<char> {
        match self {
            LeanDiagnosticCode::RuntimeInit => "Lean runtime initialization failed"@,
            LeanDiagnosticCode::Linking => "a linkable artefact was missing or mismatched"@,
            LeanDiagnosticCode::ModuleInit => {
                "a capability dylib could not be opened or initialized"@
            },
            LeanDiagnosticCode::SymbolLookup => "a symbol was not present in the loaded dylib"@,
            LeanDiagnosticCode::AbiConversion => "an ABI conversion failed"@,
            LeanDiagnosticCode::LeanException => "Lean raised through its IO error channel"@,
            LeanDiagnosticCode::Elaboration => {
                "term parsing or elaboration produced diagnostics"@
            },
            LeanDiagnosticCode::Unsupported => {
                "the loaded capability does not expose the requested service"@
            },
            LeanDiagnosticCode::Internal => {
                "a pub(crate) invariant tripped — likely a bug in lean-rs"@
            },
        }
    }

    /// A one-line description of the class of failures.
    #[must_use]
    pub fn description(self) -> (r: &'static str)
        ensures
            r@ == self.spec_description(),
    {
        match self {
            LeanDiagnosticCode::RuntimeInit => "Lean runtime initialization failed",
            LeanDiagnosticCode::Linking => "a linkable artefact was missing or mismatched",
            LeanDiagnosticCode::ModuleInit => {
                "a capability dylib could not be opened or initialized"
            },
            LeanDiagnosticCode::SymbolLookup => "a symbol was not present in the loaded dylib",
            LeanDiagnosticCode::AbiConversion => "an ABI conversion failed",
            LeanDiagnosticCode::LeanException => "Lean raised through its IO error channel",
            LeanDiagnosticCode::Elaboration => "term parsing or elaboration produced diagnostics",
            LeanDiagnosticCode::Unsupported => {
                "the loaded capability does not expose the requested service"
            },
            LeanDiagnosticCode::Internal => {
                "a pub(crate) invariant tripped — likely a bug in lean-rs"
            },
        }
    }

    /// The variant's name.
    pub open spec fn spec_name(self) -> Seq<char> {
        match self {
            LeanDiagnosticCode::RuntimeInit => "RuntimeInit"@,
            LeanDiagnosticCode::Linking => "Linking"@,
            LeanDiagnosticCode::ModuleInit => "ModuleInit"@,
            LeanDiagnosticCode::SymbolLookup => "SymbolLookup"@,
            LeanDiagnosticCode::AbiConversion => "AbiConversion"@,
            LeanDiagnosticCode::LeanException => "LeanException"@,
            LeanDiagnosticCode::Elaboration => "Elaboration"@,
            LeanDiagnosticCode::Unsupported => "Unsupported"@,
            LeanDiagnosticCode::Internal => "Internal"@,
        }
    }

    /// The variant's name.
    #[must_use]
    pub fn name(self) -> (r: &'static str)
        ensures
            r@ == self.spec_name(),
    {
        match self {
            LeanDiagnosticCode::RuntimeInit => "RuntimeInit",
            LeanDiagnosticCode::Linking => "Linking",
            LeanDiagnosticCode::ModuleInit => "ModuleInit",
            LeanDiagnosticCode::SymbolLookup => "SymbolLookup",
            LeanDiagnosticCode::AbiConversion => "AbiConversion",
            LeanDiagnosticCode::LeanException => "LeanException",
            LeanDiagnosticCode::Elaboration => "Elaboration",
            LeanDiagnosticCode::Unsupported => "Unsupported",
            LeanDiagnosticCode::Internal => "Internal",
        }
    }
}

/// Constructor of Lean's `IO.Error` that an exception was raised with.
#[non_exhaustive]
#[derive(Copy, Clone, Debug, PartialEq, Eq, Structural)]
pub enum LeanExceptionKind {
    /// `IO.Error.alreadyExists`.
    AlreadyExists,
    /// `IO.Error.otherError`.
    OtherError,
    /// `IO.Error.resourceBusy`.
    ResourceBusy,
    /// `IO.Error.resourceVanished`.
    ResourceVanished,
    /// `IO.Error.unsupportedOperation`.
    UnsupportedOperation,
    /// `IO.Error.hardwareFault`.
    HardwareFault,
    /// `IO.Error.unsatisfiedConstraints`.
    UnsatisfiedConstraints,
    /// `IO.Error.illegalOperation`.
    IllegalOperation,
    /// `IO.Error.protocolError`.
    ProtocolError,
    /// `IO.Error.timeExpired`.
    TimeExpired,
    /// `IO.Error.interrupted`.
    Interrupted,
    /// `IO.Error.noFileOrDirectory`.
    NoFileOrDirectory,
    /// `IO.Error.invalidArgument`.
    InvalidArgument,
    /// `IO.Error.permissionDenied`.
    PermissionDenied,
    /// `IO.Error.resourceExhausted`.
    ResourceExhausted,
    /// `IO.Error.inappropriateType`.
    InappropriateType,
    /// `IO.Error.noSuchThing`.
    NoSuchThing,
    /// `IO.Error.unexpectedEof`.
    UnexpectedEof,
    /// `IO.Error.userError`.
    UserError,
    /// A constructor outside the known table.
    Other,
}

impl LeanExceptionKind {
    /// The variant's name.
    pub open spec fn spec_name(self) -> Seq<char> {
        match self {
            LeanExceptionKind::AlreadyExists => "AlreadyExists"@,
            LeanExceptionKind::OtherError => "OtherError"@,
            LeanExceptionKind::ResourceBusy => "ResourceBusy"@,
            LeanExceptionKind::ResourceVanished => "ResourceVanished"@,
            LeanExceptionKind::UnsupportedOperation => "UnsupportedOperation"@,
            LeanExceptionKind::HardwareFault => "HardwareFault"@,
            LeanExceptionKind::UnsatisfiedConstraints => "UnsatisfiedConstraints"@,
            LeanExceptionKind::IllegalOperation => "IllegalOperation"@,
            LeanExceptionKind::ProtocolError => "ProtocolError"@,
            LeanExceptionKind::TimeExpired => "TimeExpired"@,
            LeanExceptionKind::Interrupted => "Interrupted"@,
            LeanExceptionKind::NoFileOrDirectory => "NoFileOrDirectory"@,
            LeanExceptionKind::InvalidArgument => "InvalidArgument"@,
            LeanExceptionKind::PermissionDenied => "PermissionDenied"@,
            LeanExceptionKind::ResourceExhausted => "ResourceExhausted"@,
            LeanExceptionKind::InappropriateType => "InappropriateType"@,
            LeanExceptionKind::NoSuchThing => "NoSuchThing"@,
            LeanExceptionKind::UnexpectedEof => "UnexpectedEof"@,
            LeanExceptionKind::UserError => "UserError"@,
            LeanExceptionKind::Other => "Other"@,
        }
    }

    /// The variant's name, as it appears in rendered exceptions.
    #[must_use]
    pub fn name(self) -> (r: &'static str)
        ensures
            r@ == self.spec_name(),
    {
        match self {
            LeanExceptionKind::AlreadyExists => "AlreadyExists",
            LeanExceptionKind::OtherError => "OtherError",
            LeanExceptionKind::ResourceBusy => "ResourceBusy",
            LeanExceptionKind::ResourceVanished => "ResourceVanished",
            LeanExceptionKind::UnsupportedOperation => "UnsupportedOperation",
            LeanExceptionKind::HardwareFault => "HardwareFault",
            LeanExceptionKind::UnsatisfiedConstraints => "UnsatisfiedConstraints",
            LeanExceptionKind::IllegalOperation => "IllegalOperation",
            LeanExceptionKind::ProtocolError => "ProtocolError",
            LeanExceptionKind::TimeExpired => "TimeExpired",
            LeanExceptionKind::Interrupted => "Interrupted",
            LeanExceptionKind::NoFileOrDirectory => "NoFileOrDirectory",
            LeanExceptionKind::InvalidArgument => "InvalidArgument",
            LeanExceptionKind::PermissionDenied => "PermissionDenied",
            LeanExceptionKind::ResourceExhausted => "ResourceExhausted",
            LeanExceptionKind::InappropriateType => "InappropriateType",
            LeanExceptionKind::NoSuchThing => "NoSuchThing",
            LeanExceptionKind::UnexpectedEof => "UnexpectedEof",
            LeanExceptionKind::UserError => "UserError",
            LeanExceptionKind::Other => "Other",
        }
    }
}

/// Mathematical value of a [`LeanError`].
pub enum LeanErrorView {
    /// Lean raised through its `IO` channel.
    LeanException { kind: LeanExceptionKind, message: Seq<char> },
    /// The hosting stack failed.
    Host { stage: HostStage, code: LeanDiagnosticCode, message: Seq<char> },
}

impl LeanErrorView {
    /// The diagnostic code of the error.
    pub open spec fn code(self) -> LeanDiagnosticCode {
        match self {
            LeanErrorView::LeanException { .. } => LeanDiagnosticCode::LeanException,
            LeanErrorView::Host { code, .. } => code,
        }
    }

    /// The message that the error carries.
    pub open spec fn message(self) -> Seq<char> {
        match self {
            LeanErrorView::LeanException { message, .. } => message,
            LeanErrorView::Host { message, .. } => message,
        }
    }

    /// The rendering of the error without the crate prefix.
    pub open spec fn body_text(self) -> Seq<char> {
        match self {
            LeanErrorView::LeanException { kind, message } => {
                "Lean threw "@ + kind.spec_name() + ": "@ + message
            },
            LeanErrorView::Host { stage, code, message } => {
                "host stage "@ + stage.spec_name() + " ["@ + code.spec_as_str() + "]: "@ + message
            },
        }
    }

    /// The full rendering of the error.
    pub open spec fn text(self) -> Seq<char> {
        "lean-rs: "@ + self.body_text()
    }
}

/// A failure of the hosting stack with the given stage, code and message.
pub open spec fn host_error(
    stage: HostStage,
    code: LeanDiagnosticCode,
    message: Seq<char>,
) -> LeanErrorView {
    LeanErrorView::Host { stage, code, message: bounded_message(message) }
}

/// The error of a failed runtime initialization.
pub open spec fn runtime_init_error(message: Seq<char>) -> LeanErrorView {
    host_error(HostStage::RuntimeInit, LeanDiagnosticCode::RuntimeInit, message)
}

/// The error of a missing or malformed linkable artefact.
pub open spec fn linking_error(message: Seq<char>) -> LeanErrorView {
    host_error(HostStage::Link, LeanDiagnosticCode::Linking, message)
}

/// The error of a dylib that could not be opened or initialized.
pub open spec fn module_init_error(message: Seq<char>) -> LeanErrorView {
    host_error(HostStage::Load, LeanDiagnosticCode::ModuleInit, message)
}

/// The error of a failed symbol lookup.
pub open spec fn symbol_lookup_error(message: Seq<char>) -> LeanErrorView {
    host_error(HostStage::Link, LeanDiagnosticCode::SymbolLookup, message)
}

/// The error of a failed conversion.
pub open spec fn abi_conversion_error(message: Seq<char>) -> LeanErrorView {
    host_error(HostStage::Conversion, LeanDiagnosticCode::AbiConversion, message)
}

/// The error of a tripped internal invariant.
pub open spec fn internal_error(message: Seq<char>) -> LeanErrorView {
    host_error(HostStage::Internal, LeanDiagnosticCode::Internal, message)
}

/// The error of a contained callback panic.
pub open spec fn callback_panic_error(message: Seq<char>) -> LeanErrorView {
    host_error(HostStage::CallbackPanic, LeanDiagnosticCode::Internal, message)
}

/// The error of an exception that Lean raised.
pub open spec fn lean_exception_error(
    kind: LeanExceptionKind,
    message: Seq<char>,
) -> LeanErrorView {
    LeanErrorView::LeanException { kind, message: bounded_message(message) }
}

/// An exception raised by Lean through its `IO` error channel.
#[derive(Debug)]
pub struct LeanException {
    kind: LeanExceptionKind,
    message: String,
}

impl LeanException {
    #[verifier::type_invariant]
    spec fn well_formed(self) -> bool {
        utf8_len(self.message@) <= LEAN_ERROR_MESSAGE_LIMIT
    }

    /// Constructor of `IO.Error` that Lean raised.
    pub closed spec fn spec_kind(self) -> LeanExceptionKind {
        self.kind
    }

    /// Message that Lean raised, bounded.
    pub closed spec fn spec_message(self) -> Seq<char> {
        self.message@
    }

    /// Constructor of `IO.Error` that Lean raised.
    #[must_use]
    pub fn kind(&self) -> (r: LeanExceptionKind)
        ensures
            r == self.spec_kind(),
    {
        self.kind
    }

    /// Message that Lean raised, bounded.
    #[must_use]
    pub fn message(&self) -> (r: &str)
        ensures
            r@ == self.spec_message(),
            utf8_len(r@) <= LEAN_ERROR_MESSAGE_LIMIT,
    {
        proof {
            use_type_invariant(&*self);
        }
        self.message.as_str()
    }

    /// Renders the exception.
    pub fn render(&self) -> (r: String)
        ensures
            r@ == "Lean threw "@ + self.spec_kind().spec_name() + ": "@ + self.spec_message(),
    {
        cat4("Lean threw ", self.kind.name(), ": ", self.message.as_str())
    }
}

impl Clone for LeanException {
    fn clone(&self) -> (r: LeanException)
        ensures
            r.spec_kind() == self.spec_kind(),
            r.spec_message() == self.spec_message(),
    {
        proof {
            use_type_invariant(&*self);
        }
        LeanException { kind: self.kind, message: self.message.clone() }
    }
}

/// A failure of the hosting stack.
#[derive(Debug)]
pub struct HostFailure {
    stage: HostStage,
    code: LeanDiagnosticCode,
    message: String,
}

impl HostFailure {
    #[verifier::type_invariant]
    spec fn well_formed(self) -> bool {
        utf8_len(self.message@) <= LEAN_ERROR_MESSAGE_LIMIT
    }

    /// Stage at which the failure occurred.
    pub closed spec fn spec_stage(self) -> HostStage {
        self.stage
    }

    /// Diagnostic code of the failure.
    pub closed spec fn spec_code(self) -> LeanDiagnosticCode {
        self.code
    }

    /// Message of the failure, bounded.
    pub closed spec fn spec_message(self) -> Seq<char> {
        self.message@
    }

    /// Stage at which the failure occurred.
    #[must_use]
    pub fn stage(&self) -> (r: HostStage)
        ensures
            r == self.spec_stage(),
    {
        self.stage
    }

    /// Diagnostic code of the failure.
    #[must_use]
    pub fn code(&self) -> (r: LeanDiagnosticCode)
        ensures
            r == self.spec_code(),
    {
        self.code
    }

    /// Message of the failure, bounded.
    #[must_use]
    pub fn message(&self) -> (r: &str)
        ensures
            r@ == self.spec_message(),
            utf8_len(r@) <= LEAN_ERROR_MESSAGE_LIMIT,
    {
        proof {
            use_type_invariant(&*self);
        }
        self.message.as_str()
    }

    /// Renders the failure.
    pub fn render(&self) -> (r: String)
        ensures
            r@ == "host stage "@ + self.spec_stage().spec_name() + " ["@
                + self.spec_code().spec_as_str() + "]: "@ + self.spec_message(),
    {
        cat6(
            "host stage ",
            self.stage.name(),
            " [",
            self.code.as_str(),
            "]: ",
            self.message.as_str(),
        )
    }
}

impl Clone for HostFailure {
    fn clone(&self) -> (r: HostFailure)
        ensures
            r.spec_stage() == self.spec_stage(),
            r.spec_code() == self.spec_code(),
            r.spec_message() == self.spec_message(),
    {
        proof {
            use_type_invariant(&*self);
        }
        HostFailure { stage: self.stage, code: self.code, message: self.message.clone() }
    }
}

/// What a caught panic carried.
#[derive(Clone, Debug)]
pub enum PanicPayload {
    /// A string literal.
    StaticStr(&'static str),
    /// An owned string.
    Owned(String),
    /// A value that is not a string.
    Opaque,
}

impl PanicPayload {
    /// The payload's text, where it is a string.
    pub open spec fn text(self) -> Option<Seq<char>> {
        match self {
            PanicPayload::StaticStr(s) => Some(s@),
            PanicPayload::Owned(s) => Some(s@),
            PanicPayload::Opaque => None,
        }
    }

    /// The payload as it enters an error message.
    pub open spec fn rendered(self) -> Seq<char> {
        match self.text() {
            Some(s) => s,
            None => "panic payload was not a string"@,
        }
    }
}

/// Renders a panic payload.
pub fn render_panic_payload(payload: &PanicPayload) -> (r: String)
    ensures
        r@ == payload.rendered(),
{
    match payload {
        PanicPayload::StaticStr(s) => (*s).to_owned(),
        PanicPayload::Owned(s) => s.clone(),
        PanicPayload::Opaque => "panic payload was not a string".to_owned(),
    }
}

/// Any failure that crosses this library's boundary.
#[non_exhaustive]
#[derive(Debug)]
pub enum LeanError {
    /// Lean raised through its `IO` error channel.
    LeanException(LeanException),
    /// The hosting stack failed.
    Host(HostFailure),
}

impl View for LeanError {
    type V = LeanErrorView;

    open spec fn view(&self) -> LeanErrorView {
        match *self {
            LeanError::LeanException(e) => LeanErrorView::LeanException {
                kind: e.spec_kind(),
                message: e.spec_message(),
            },
            LeanError::Host(f) => LeanErrorView::Host {
                stage: f.spec_stage(),
                code: f.spec_code(),
                message: f.spec_message(),
            },
        }
    }
}

impl Clone for LeanError {
    fn clone(&self) -> (r: LeanError)
        ensures
            r@ == self@,
    {
        match self {
            LeanError::LeanException(e) => LeanError::LeanException(e.clone()),
            LeanError::Host(f) => LeanError::Host(f.clone()),
        }
    }
}

impl LeanError {
    /// Diagnostic code of the error.
    #[must_use]
    pub fn code(&self) -> (r: LeanDiagnosticCode)
        ensures
            r == self@.code(),
    {
        match self {
            LeanError::LeanException(_) => LeanDiagnosticCode::LeanException,
            LeanError::Host(failure) => failure.code,
        }
    }

    /// Builds the error of a failed runtime initialization.
    pub fn runtime_init(message: String) -> (r: LeanError)
        ensures
            r@ == runtime_init_error(message@),
    {
        LeanError::host(HostStage::RuntimeInit, LeanDiagnosticCode::RuntimeInit, message)
    }

    /// Builds the error of a runtime initialization that panicked.
    pub fn runtime_init_panic(payload: &PanicPayload) -> (r: LeanError)
        ensures
            r@ == runtime_init_error(payload.rendered()),
    {
        LeanError::runtime_init(render_panic_payload(payload))
    }

    /// Builds the error of a missing or malformed linkable artefact.
    pub fn linking(message: String) -> (r: LeanError)
        ensures
            r@ == linking_error(message@),
    {
        LeanError::host(HostStage::Link, LeanDiagnosticCode::Linking, message)
    }

    /// Builds the error of a dylib that could not be opened or initialized.
    pub fn module_init(message: String) -> (r: LeanError)
        ensures
            r@ == module_init_error(message@),
    {
        LeanError::host(HostStage::Load, LeanDiagnosticCode::ModuleInit, message)
    }

    /// Builds the error of a module initializer that panicked.
    pub fn module_init_panic(payload: &PanicPayload) -> (r: LeanError)
        ensures
            r@ == module_init_error(payload.rendered()),
    {
        LeanError::module_init(render_panic_payload(payload))
    }

    /// Builds the error of a failed symbol lookup.
    pub fn symbol_lookup(message: String) -> (r: LeanError)
        ensures
            r@ == symbol_lookup_error(message@),
    {
        LeanError::host(HostStage::Link, LeanDiagnosticCode::SymbolLookup, message)
    }

    /// Builds the error of a failed conversion.
    pub fn abi_conversion(message: String) -> (r: LeanError)
        ensures
            r@ == abi_conversion_error(message@),
    {
        LeanError::host(HostStage::Conversion, LeanDiagnosticCode::AbiConversion, message)
    }

    /// Builds the error of a tripped internal invariant.
    pub fn internal(message: String) -> (r: LeanError)
        ensures
            r@ == internal_error(message@),
    {
        LeanError::host(HostStage::Internal, LeanDiagnosticCode::Internal, message)
    }

    /// Builds the error of an exception that Lean raised.
    pub fn lean_exception(kind: LeanExceptionKind, message: String) -> (r: LeanError)
        ensures
            r@ == lean_exception_error(kind, message@),
    {
        LeanError::LeanException(LeanException { kind, message: bound_message(message) })
    }

    /// Builds the error of a contained callback panic.
    pub fn callback_panic(payload: &PanicPayload) -> (r: LeanError)
        ensures
            r@ == callback_panic_error(payload.rendered()),
    {
        LeanError::host(
            HostStage::CallbackPanic,
            LeanDiagnosticCode::Internal,
            render_panic_payload(payload),
        )
    }

    fn host(stage: HostStage, code: LeanDiagnosticCode, message: String) -> (r: LeanError)
        ensures
            r@ == host_error(stage, code, message@),
    {
        LeanError::Host(HostFailure { stage, code, message: bound_message(message) })
    }

    /// Renders the error.
    pub fn render(&self) -> (r: String)
        ensures
            r@ == self@.text(),
    {
        let body: String = match self {
            LeanError::LeanException(e) => e.render(),
            LeanError::Host(f) => f.render(),
        };
        cat2("lean-rs: ", body.as_str())
    }
}

/// Builds the error of a dylib that could not be opened or initialized.
pub fn host_module_init(message: String) -> (r: LeanError)
    ensures
        r@ == module_init_error(message@),
{
    LeanError::module_init(message)
}

/// Building an error of the hosting stack bounds its message, keeps a message
/// that already fits, and loses nothing when the message is built up again
/// from the stored one.
pub proof fn host_error_message(stage: HostStage, code: LeanDiagnosticCode, message: Seq<char>)
    ensures
        utf8_len(host_error(stage, code, message).message()) <= LEAN_ERROR_MESSAGE_LIMIT,
        host_error(stage, code, message).message().is_prefix_of(message),
        utf8_len(message) <= LEAN_ERROR_MESSAGE_LIMIT ==> host_error(stage, code, message).message()
            == message,
        host_error(stage, code, bounded_message(message)) == host_error(stage, code, message),
{
    lemma_bounded(message, LEAN_ERROR_MESSAGE_LIMIT as nat);
}

/// Whether `stored` is what an error keeps of a message: as many whole characters
/// from its start as 4096 bytes of UTF-8 hold.
pub open spec fn kept_of(message: Seq<char>, stored: Seq<char>) -> bool {
    exists|n: int|
        0 <= n <= message.len() && #[trigger] message.take(n) == stored && encode_utf8(
            message.take(n),
        ).len() <= 4096 && (n < message.len() ==> encode_utf8(message.take(n + 1)).len() > 4096)
}

/// Each failure of the hosting stack says at which stage it occurred and of which
/// class it is, and keeps its message up to the limit.
pub proof fn failures_say_stage_and_class(message: Seq<char>)
    ensures
        runtime_init_error(message) matches LeanErrorView::Host { stage, code, message: stored }
            && stage == HostStage::RuntimeInit && code == LeanDiagnosticCode::RuntimeInit
            && kept_of(message, stored),
        linking_error(message) matches LeanErrorView::Host { stage, code, message: stored }
            && stage == HostStage::Link && code == LeanDiagnosticCode::Linking && kept_of(
            message,
            stored,
        ),
        module_init_error(message) matches LeanErrorView::Host { stage, code, message: stored }
            && stage == HostStage::Load && code == LeanDiagnosticCode::ModuleInit && kept_of(
            message,
            stored,
        ),
        symbol_lookup_error(message) matches LeanErrorView::Host { stage, code, message: stored }
            && stage == HostStage::Link && code == LeanDiagnosticCode::SymbolLookup && kept_of(
            message,
            stored,
        ),
        abi_conversion_error(message) matches LeanErrorView::Host { stage, code, message: stored }
            && stage == HostStage::Conversion && code == LeanDiagnosticCode::AbiConversion
            && kept_of(message, stored),
        internal_error(message) matches LeanErrorView::Host { stage, code, message: stored }
            && stage == HostStage::Internal && code == LeanDiagnosticCode::Internal && kept_of(
            message,
            stored,
        ),
        callback_panic_error(message) matches LeanErrorView::Host { stage, code, message: stored }
            && stage == HostStage::CallbackPanic && code == LeanDiagnosticCode::Internal
            && kept_of(message, stored),
{
    bounding_keeps_the_longest_prefix(message, LEAN_ERROR_MESSAGE_LIMIT as nat);
}

/// An exception that Lean raised keeps its kind, and its message up to the limit. Its
/// class is that of exceptions; a failure of the hosting stack has its own.
pub proof fn exceptions_keep_kind_and_message(
    kind: LeanExceptionKind,
    message: Seq<char>,
    stage: HostStage,
    code: LeanDiagnosticCode,
)
    ensures
        lean_exception_error(kind, message) matches LeanErrorView::LeanException {
            kind: raised,
            message: stored,
        } && raised == kind && kept_of(message, stored),
        lean_exception_error(kind, message).code() == LeanDiagnosticCode::LeanException,
        (LeanErrorView::Host { stage, code, message }).code() == code,
        (LeanErrorView::Host { stage, code, message }).message() == message,
        (LeanErrorView::LeanException { kind, message }).message() == message,
{
    bounding_keeps_the_longest_prefix(message, LEAN_ERROR_MESSAGE_LIMIT as nat);
}

/// A rendered failure names the library, its stage and the identifier of its class,
/// a rendered exception the library and its kind; either ends with its message.
pub proof fn renderings_name_their_parts(
    kind: LeanExceptionKind,
    stage: HostStage,
    code: LeanDiagnosticCode,
    message: Seq<char>,
)
    ensures
        (LeanErrorView::Host { stage, code, message }).text() == "lean-rs: "@ + ("host stage "@
            + stage.spec_name() + " ["@ + code.spec_as_str() + "]: "@ + message),
        (LeanErrorView::LeanException { kind, message }).text() == "lean-rs: "@ + ("Lean threw "@
            + kind.spec_name() + ": "@ + message),
{
}

/// The names of stages are those of the variants.
pub proof fn stages_are_named_by_their_variants()
    ensures
        HostStage::RuntimeInit.spec_name() == "RuntimeInit"@,
        HostStage::Conversion.spec_name() == "Conversion"@,
        HostStage::CallbackPanic.spec_name() == "CallbackPanic"@,
        HostStage::Link.spec_name() == "Link"@,
        HostStage::Load.spec_name() == "Load"@,
        HostStage::Internal.spec_name() == "Internal"@,
{
}

/// The identifier of a class is `lean_rs.` and the variant's name in snake case.
pub proof fn class_identifiers_are_stable()
    ensures
        LeanDiagnosticCode::RuntimeInit.spec_as_str() == "lean_rs.runtime_init"@,
        LeanDiagnosticCode::Linking.spec_as_str() == "lean_rs.linking"@,
        LeanDiagnosticCode::ModuleInit.spec_as_str() == "lean_rs.module_init"@,
        LeanDiagnosticCode::SymbolLookup.spec_as_str() == "lean_rs.symbol_lookup"@,
        LeanDiagnosticCode::AbiConversion.spec_as_str() == "lean_rs.abi_conversion"@,
        LeanDiagnosticCode::LeanException.spec_as_str() == "lean_rs.lean_exception"@,
        LeanDiagnosticCode::Elaboration.spec_as_str() == "lean_rs.elaboration"@,
        LeanDiagnosticCode::Unsupported.spec_as_str() == "lean_rs.unsupported"@,
        LeanDiagnosticCode::Internal.spec_as_str() == "lean_rs.internal"@,
        LeanDiagnosticCode::RuntimeInit.spec_name() == "RuntimeInit"@,
        LeanDiagnosticCode::Linking.spec_name() == "Linking"@,
        LeanDiagnosticCode::ModuleInit.spec_name() == "ModuleInit"@,
        LeanDiagnosticCode::SymbolLookup.spec_name() == "SymbolLookup"@,
        LeanDiagnosticCode::AbiConversion.spec_name() == "AbiConversion"@,
        LeanDiagnosticCode::LeanException.spec_name() == "LeanException"@,
        LeanDiagnosticCode::Elaboration.spec_name() == "Elaboration"@,
        LeanDiagnosticCode::Unsupported.spec_name() == "Unsupported"@,
        LeanDiagnosticCode::Internal.spec_name() == "Internal"@,
{
}

/// The names of exception kinds are those of the constructors of `IO.Error`.
pub proof fn exception_kinds_are_named_by_their_variants()
    ensures
        LeanExceptionKind::AlreadyExists.spec_name() == "AlreadyExists"@,
        LeanExceptionKind::OtherError.spec_name() == "OtherError"@,
        LeanExceptionKind::ResourceBusy.spec_name() == "ResourceBusy"@,
        LeanExceptionKind::ResourceVanished.spec_name() == "ResourceVanished"@,
        LeanExceptionKind::UnsupportedOperation.spec_name() == "UnsupportedOperation"@,
        LeanExceptionKind::HardwareFault.spec_name() == "HardwareFault"@,
        LeanExceptionKind::UnsatisfiedConstraints.spec_name() == "UnsatisfiedConstraints"@,
        LeanExceptionKind::IllegalOperation.spec_name() == "IllegalOperation"@,
        LeanExceptionKind::ProtocolError.spec_name() == "ProtocolError"@,
        LeanExceptionKind::TimeExpired.spec_name() == "TimeExpired"@,
        LeanExceptionKind::Interrupted.spec_name() == "Interrupted"@,
        LeanExceptionKind::NoFileOrDirectory.spec_name() == "NoFileOrDirectory"@,
        LeanExceptionKind::InvalidArgument.spec_name() == "InvalidArgument"@,
        LeanExceptionKind::PermissionDenied.spec_name() == "PermissionDenied"@,
        LeanExceptionKind::ResourceExhausted.spec_name() == "ResourceExhausted"@,
        LeanExceptionKind::InappropriateType.spec_name() == "InappropriateType"@,
        LeanExceptionKind::NoSuchThing.spec_name() == "NoSuchThing"@,
        LeanExceptionKind::UnexpectedEof.spec_name() == "UnexpectedEof"@,
        LeanExceptionKind::UserError.spec_name() == "UserError"@,
        LeanExceptionKind::Other.spec_name() == "Other"@,
{
}

/// A panic that carried a string is reported by that string, owned or not; only
/// another payload gets a text of its own.
pub proof fn panics_are_reported_by_their_text(literal: &'static str, owned: String)
    ensures
        PanicPayload::StaticStr(literal).rendered() == literal@,
        PanicPayload::Owned(owned).rendered() == owned@,
        PanicPayload::StaticStr(literal).text() == Some(literal@),
        PanicPayload::Owned(owned).text() == Some(owned@),
        PanicPayload::Opaque.text() is None,
        PanicPayload::Opaque.rendered() == "panic payload was not a string"@,
{
}

/// What each class of failures is described by.
pub proof fn class_descriptions_are_stable()
    ensures
        LeanDiagnosticCode::RuntimeInit.spec_description() == "Lean runtime initialization failed"@,
        LeanDiagnosticCode::Linking.spec_description()
            == "a linkable artefact was missing or mismatched"@,
        LeanDiagnosticCode::ModuleInit.spec_description()
            == "a capability dylib could not be opened or initialized"@,
        LeanDiagnosticCode::SymbolLookup.spec_description()
            == "a symbol was not present in the loaded dylib"@,
        LeanDiagnosticCode::AbiConversion.spec_description() == "an ABI conversion failed"@,
        LeanDiagnosticCode::LeanException.spec_description()
            == "Lean raised through its IO error channel"@,
        LeanDiagnosticCode::Elaboration.spec_description()
            == "term parsing or elaboration produced diagnostics"@,
        LeanDiagnosticCode::Unsupported.spec_description()
            == "the loaded capability does not expose the requested service"@,
        LeanDiagnosticCode::Internal.spec_description()
            == "a pub(crate) invariant tripped — likely a bug in lean-rs"@,
{
}

/// An error is viewed as what it is: an exception with its kind and message, a failure
/// with its stage, class and message.
pub proof fn errors_are_viewed_part_by_part(err: LeanError)
    ensures
        err matches LeanError::LeanException(e) ==> err@ == (LeanErrorView::LeanException {
            kind: e.spec_kind(),
            message: e.spec_message(),
        }),
        err matches LeanError::Host(f) ==> err@ == (LeanErrorView::Host {
            stage: f.spec_stage(),
            code: f.spec_code(),
            message: f.spec_message(),
        }),
{
}

/// The stored message is the longest prefix that the limit has room for, and storing a
/// stored message again changes nothing.
pub proof fn stored_messages_are_longest_prefixes(message: Seq<char>)
    ensures
        kept_of(message, bounded_message(message)),
        bounded_message(bounded_message(message)) == bounded_message(message),
        encode_utf8(message).len() <= 4096 ==> bounded_message(message) == message,
{
    bounding_keeps_the_longest_prefix(message, LEAN_ERROR_MESSAGE_LIMIT as nat);
    lemma_bounded(message, LEAN_ERROR_MESSAGE_LIMIT as nat);
    lemma_bounded(bounded_message(message), LEAN_ERROR_MESSAGE_LIMIT as nat);
}

} // verus!
