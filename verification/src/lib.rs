//! Alignment resolution for an `align` directive in a document layout engine.
//!
//! The library resolves a sequence of possibly axis-unknown alignment
//! requests against the ambient alignment state, accumulating non-fatal
//! diagnostics for conflicting requests, and emits the scoped command
//! sequence that installs the resolved value around a nested layout pass.

pub mod diag;
pub mod eval;
pub mod laws;
pub mod model;
pub mod option_ext;
pub mod resolve;
