//! Generation of fuzzing harnesses for existing functions and methods.
//!
//! Given a normalized description of a callable's signature (and, for
//! methods, its enclosing type), this crate derives three artifacts:
//! an aggregate type holding one field per parameter, an adapter
//! function that unpacks such an aggregate and performs the original
//! call with reconstructed ownership, and a harness descriptor that
//! binds both into a fuzzing engine's callback convention.

pub mod adapter;
pub mod aggregate;
pub mod harness;
pub mod laws;
pub mod model;
pub mod names;
pub mod validate;
