//! Data carried through the whole pipeline: source positions, runtime
//! values, tokens, error values, and the abstract syntax tree.

pub mod ast;
pub mod error;
pub mod number;
pub mod object;
pub mod position;
pub mod token;
