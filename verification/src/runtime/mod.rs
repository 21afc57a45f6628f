//! The Lean runtime: its objects, its initialization, and the attachment of
//! threads to it.

pub mod init;
pub mod obj;
pub mod thread;
