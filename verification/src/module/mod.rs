//! Loading Lake-built Lean modules: naming, object-file inspection,
//! preflight, opening, and typed export lookup.

pub mod args;
pub mod bundle;
pub mod capability;
pub mod exported;
pub mod initializer;
pub mod library;
pub mod loaded;
pub mod loader;
pub mod manifest;
pub mod preflight;
pub mod signature;
pub mod symbols;
