//! A tree-walking interpreter for a small dynamically typed scripting
//! language: variable bindings, user-defined and builtin functions,
//! conditional expressions, block scoping, arrays, and a handful of
//! host-provided utility functions.
//!
//! Runtime numbers follow IEEE-754 binary64 semantics.  The verified core
//! stores each number as its 64-bit encoding and delegates the arithmetic
//! itself to a software implementation of IEEE-754 (`rustc_apfloat`), so
//! that every rule of the language above the raw arithmetic is proved.

pub mod common;
pub mod runtime;
