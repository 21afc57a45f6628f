//! Kernel-checked evidence and summaries of it.

pub mod handle;
pub mod status;
pub mod summary;

pub use self::handle::LeanEvidence;
pub use self::status::{EvidenceStatus, LeanKernelOutcome};
pub use self::summary::{LEAN_PROOF_SUMMARY_BYTE_LIMIT, ProofSummary};
