//! Generation of builder companions for flat, named-field record declarations.
//!
//! Given a structural description of a record declaration (field names, type
//! expressions and attached metadata), the library derives the shape of a
//! builder companion: one storage slot per field, one primary setter per
//! field (replacing, appending, or a diagnostic stub for malformed metadata),
//! and a terminal validate-and-assemble step. The behaviour of the derived
//! builder is itself defined here as operations on an explicit builder state,
//! so that the promised setter and assembly semantics are proved, not only
//! emitted.

pub mod classify;
pub mod error;
pub mod generate;
pub mod laws;
pub mod metadata;
pub mod model;
pub mod runtime;
pub mod synth;
