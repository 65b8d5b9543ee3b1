//! Execution: the binding environment, the builtin functions, and the
//! tree-walking evaluator.

pub mod builtin;
pub mod environment;
pub mod interpreter;
