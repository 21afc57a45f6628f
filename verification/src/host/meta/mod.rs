//! Bounded meta services: type inference, normalisation and the like.

pub mod options;
pub mod response;

pub use self::options::{LeanMetaOptions, LeanMetaTransparency};
pub use self::response::{LeanMetaResponse, LeanMetaService, MetaCallStatus};
