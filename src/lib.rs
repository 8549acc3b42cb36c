//! Function compilation and evaluation for a small record-transformation
//! language: argument binding, static type descriptors, compile-time
//! diagnostics, an interpreter path and native entry points.

pub mod value;
pub mod diagnostic;
pub mod digest;
pub mod host;
pub mod pattern;
pub mod eval;
pub mod arguments;
pub mod functions;
pub mod native;
pub mod cli;
