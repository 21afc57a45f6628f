//! Hosting Lean capabilities: projects, sessions, elaboration, bounded meta
//! services and evidence.

pub mod capabilities;
pub mod elaboration;
pub mod evidence;
pub mod lake;
pub mod meta;
pub mod session;
pub mod symbols;
