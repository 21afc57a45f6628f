//! Typed conversions between Rust values and Lean objects.

pub mod array;
pub mod bytearray;
pub mod except;
pub mod lean_int;
pub mod lean_nat;
pub mod option;
pub mod scalar;
pub mod string;
pub mod structure;
pub mod traits;
pub mod tuple;
