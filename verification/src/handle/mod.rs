//! Opaque handles for Lean's semantic values.
//!
//! Text that Lean renders for a handle is diagnostic: two values that print
//! alike need not be equal. Equality is decided by a Lean function.

pub mod declaration;
pub mod expr;
pub mod level;
pub mod name;

pub use self::declaration::LeanDeclaration;
pub use self::expr::LeanExpr;
pub use self::level::LeanLevel;
pub use self::name::LeanName;
