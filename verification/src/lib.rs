//! A semantic analyzer for a small statically typed imperative language with
//! explicit mutability, integer and boolean primitives, block expressions,
//! conditionals, loops, and typed functions.
//!
//! The analyzer consumes a parsed syntax tree and decides, for every
//! construct, whether it is well formed with respect to scoping, mutability,
//! and typing; where it is not, it records a precise diagnostic and recovers,
//! so one run reports every error in the program. The result the executable
//! analyzer returns is proved equal to a purely mathematical description of
//! the analysis, so its behaviour on every input is pinned down by the
//! contracts in this crate.

pub mod ast;
pub mod check;
pub mod diag;
pub mod fixtures;
pub mod scope;
pub mod table;
