//! Elaboration of Lean terms and declarations.

pub mod failure;
pub mod options;

pub use self::failure::LeanElabFailure;
pub use self::options::{
    LEAN_DIAGNOSTIC_BYTE_LIMIT_DEFAULT, LEAN_DIAGNOSTIC_BYTE_LIMIT_MAX,
    LEAN_HEARTBEAT_LIMIT_DEFAULT, LEAN_HEARTBEAT_LIMIT_MAX, LeanElabOptions,
};
