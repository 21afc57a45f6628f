//! Verified core of a Rust host for Lean 4.
//!
//! The crate decides; it does not reach out. Lean objects are plain values,
//! foreign calls are requests with marshalled arguments, and everything that
//! touches the file system, the dynamic loader, the environment or a thread comes
//! in as the outcome of a step taken elsewhere.
//!
//! - [`abi`]: typed conversions between Rust values and Lean objects.
//! - [`callback`]: the registry and the trampolines for calls from Lean.
//! - [`error`]: the error boundary, `IO` results, and the capture of events.
//! - [`handle`]: opaque handles for Lean's semantic values.
//! - [`host`]: Lake projects, capabilities, sessions, elaboration, evidence.
//! - [`module`]: naming, inspecting, loading and typing Lake-built libraries.
//! - [`runtime`]: Lean objects, initialization, and attachment of threads.

use vstd::prelude::*;

pub mod abi;
pub mod callback;
pub mod error;
pub mod fuzz_entry;
pub mod handle;
pub mod host;
pub mod module;
pub mod runtime;
pub mod text;

pub use crate::error::capture::{
    CapturedEvent, DIAGNOSTIC_CAPTURE_DEFAULT_CAPACITY, DiagnosticCapture,
};
pub use crate::error::{
    HostFailure, HostStage, LEAN_ERROR_MESSAGE_LIMIT, LeanDiagnosticCode, LeanError, LeanException,
    LeanExceptionKind, LeanResult,
};
pub use crate::handle::{LeanDeclaration, LeanExpr, LeanLevel, LeanName};
pub use crate::host::capabilities::{LeanCapabilities, LeanHost};
pub use crate::host::elaboration::{
    LEAN_DIAGNOSTIC_BYTE_LIMIT_DEFAULT, LEAN_DIAGNOSTIC_BYTE_LIMIT_MAX,
    LEAN_HEARTBEAT_LIMIT_DEFAULT, LEAN_HEARTBEAT_LIMIT_MAX, LeanElabFailure, LeanElabOptions,
};
pub use crate::host::evidence::{
    EvidenceStatus, LEAN_PROOF_SUMMARY_BYTE_LIMIT, LeanEvidence, LeanKernelOutcome, ProofSummary,
};
pub use crate::host::session::{LeanSession, SessionStats};
pub use crate::runtime::init::LeanRuntime;
pub use crate::runtime::thread::LeanThreadGuard;

verus! {

/// Version of this crate.
pub const VERSION: &'static str = "0.1.2";

} // verus!
