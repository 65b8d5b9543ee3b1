//! Source positions: the name of the source and a 1-based line number,
//! attached to every token and carried into every error.

use vstd::prelude::*;

verus! {

/// A source location.
#[derive(Debug)]
pub struct Position {
    pub source_name: String,
    pub line: u64,
}

/// The mathematical model of a [`Position`].
pub struct PositionV {
    pub source_name: Seq<char>,
    pub line: u64,
}

impl View for Position {
    type V = PositionV;

    open spec fn view(&self) -> PositionV {
        PositionV { source_name: self.source_name@, line: self.line }
    }
}

impl Position {
    pub fn new(source_name: String, line: u64) -> (r: Self)
        ensures
            r@ == (PositionV { source_name: source_name@, line }),
    {
        Position { source_name, line }
    }
}

impl Clone for Position {
    fn clone(&self) -> (r: Self)
        ensures
            r@ == self@,
    {
        Position { source_name: self.source_name.clone(), line: self.line }
    }
}

} // verus!
