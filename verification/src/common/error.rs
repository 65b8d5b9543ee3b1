//! Runtime errors.  Every error carries a structured cause and the source
//! position where it originated; a human-readable message is derived from
//! the cause.  The pipeline is fail-fast: the first error aborts the
//! evaluation of the surrounding program.

use crate::common::position::{Position, PositionV};
use vstd::prelude::*;

verus! {

/// Which operand shape a binary or unary operator rejected.
#[derive(Clone, Copy, Debug, PartialEq, Eq, Structural)]
pub enum OperandFault {
    BooleanOperand,
    StringOperand,
    NilOperand,
    ArrayOperand,
    MixedOperands,
}

/// The structured cause of a runtime error.
#[derive(Debug)]
pub enum ErrorKind {
    /// A variable or function name with no binding in any reachable scope.
    UndefinedIdentifier(String),
    /// A function-table entry without a body whose name is no builtin.
    UnknownBuiltin(String),
    /// An operator applied to operands of a type it does not support.
    TypeMismatch { operator: String, fault: OperandFault },
    /// A token that is no operator in operator position.
    UnknownOperator(String),
    /// A call with fewer arguments than declared parameters; `missing`
    /// names the parameters that received no argument.
    ArityTooFew { expected: usize, got: usize, missing: Vec<String> },
    /// A call with more arguments than declared parameters.
    ArityTooMany { expected: usize, got: usize },
    /// A builtin applied to an argument of a type it does not support;
    /// the payload names the builtin.
    UnsupportedArgument(String),
    /// In a format template, `{` followed by a character that is neither
    /// a digit, `}` nor `{`.
    InvalidPlaceholder(char),
    /// A format placeholder with no argument left to consume, or with an
    /// index that is out of bounds.
    ArgumentCount,
    /// In a format template, `}` that closes nothing and is no escape.
    UnclosedPlaceholder,
    /// The interpreter's call-depth limit was reached.
    DepthExceeded,
    /// The interactive line-input transport could not be initialized.
    ReadInitFailed,
    /// No line could be read from interactive input.
    ReadFailed,
}

/// The mathematical model of an [`ErrorKind`].
pub enum ErrorKindV {
    UndefinedIdentifier(Seq<char>),
    UnknownBuiltin(Seq<char>),
    TypeMismatch { operator: Seq<char>, fault: OperandFault },
    UnknownOperator(Seq<char>),
    ArityTooFew { expected: usize, got: usize, missing: Seq<Seq<char>> },
    ArityTooMany { expected: usize, got: usize },
    UnsupportedArgument(Seq<char>),
    InvalidPlaceholder(char),
    ArgumentCount,
    UnclosedPlaceholder,
    DepthExceeded,
    ReadInitFailed,
    ReadFailed,
}

/// The model of a sequence of strings.
pub open spec fn strs_view(s: Seq<String>) -> Seq<Seq<char>> {
    Seq::new(
        s.len(),
        |i: int|
            if 0 <= i < s.len() {
                s[i]@
            } else {
                Seq::empty()
            },
    )
}

impl View for ErrorKind {
    type V = ErrorKindV;

    open spec fn view(&self) -> ErrorKindV {
        match self {
            ErrorKind::UndefinedIdentifier(n) => ErrorKindV::UndefinedIdentifier(n@),
            ErrorKind::UnknownBuiltin(n) => ErrorKindV::UnknownBuiltin(n@),
            ErrorKind::TypeMismatch { operator, fault } => ErrorKindV::TypeMismatch {
                operator: operator@,
                fault: *fault,
            },
            ErrorKind::UnknownOperator(n) => ErrorKindV::UnknownOperator(n@),
            ErrorKind::ArityTooFew { expected, got, missing } => ErrorKindV::ArityTooFew {
                expected: *expected,
                got: *got,
                missing: strs_view(missing@),
            },
            ErrorKind::ArityTooMany { expected, got } => ErrorKindV::ArityTooMany {
                expected: *expected,
                got: *got,
            },
            ErrorKind::UnsupportedArgument(n) => ErrorKindV::UnsupportedArgument(n@),
            ErrorKind::InvalidPlaceholder(c) => ErrorKindV::InvalidPlaceholder(*c),
            ErrorKind::ArgumentCount => ErrorKindV::ArgumentCount,
            ErrorKind::UnclosedPlaceholder => ErrorKindV::UnclosedPlaceholder,
            ErrorKind::DepthExceeded => ErrorKindV::DepthExceeded,
            ErrorKind::ReadInitFailed => ErrorKindV::ReadInitFailed,
            ErrorKind::ReadFailed => ErrorKindV::ReadFailed,
        }
    }
}

/// A runtime error: a structured cause at a source position.
#[derive(Debug)]
pub struct Error {
    pub kind: ErrorKind,
    pub position: Position,
}

/// The mathematical model of an [`Error`].
pub struct ErrorV {
    pub kind: ErrorKindV,
    pub position: PositionV,
}

impl View for Error {
    type V = ErrorV;

    open spec fn view(&self) -> ErrorV {
        ErrorV { kind: self.kind@, position: self.position@ }
    }
}

impl Error {
    pub fn new(kind: ErrorKind, position: Position) -> (r: Self)
        ensures
            r@ == (ErrorV { kind: kind@, position: position@ }),
    {
        Error { kind, position }
    }

    /// A short human-readable description of the cause.
    pub fn message(&self) -> (r: String)
        ensures
            r@ == kind_message(self.kind@),
    {
        match &self.kind {
            ErrorKind::UndefinedIdentifier(_) => String::from_str("undefined identifier"),
            ErrorKind::UnknownBuiltin(_) => String::from_str("unknown builtin function"),
            ErrorKind::TypeMismatch { .. } => String::from_str("type mismatch"),
            ErrorKind::UnknownOperator(_) => String::from_str("not an operator"),
            ErrorKind::ArityTooFew { .. } => String::from_str("too few arguments"),
            ErrorKind::ArityTooMany { .. } => String::from_str("too many arguments"),
            ErrorKind::UnsupportedArgument(_) => String::from_str("argument not supported"),
            ErrorKind::InvalidPlaceholder(_) => String::from_str("invalid placeholder"),
            ErrorKind::ArgumentCount => String::from_str(
                "not enough arguments for format string",
            ),
            ErrorKind::UnclosedPlaceholder => String::from_str("unclosed placeholder"),
            ErrorKind::DepthExceeded => String::from_str("call depth limit exceeded"),
            ErrorKind::ReadInitFailed => String::from_str("failed to initialize readline"),
            ErrorKind::ReadFailed => String::from_str("failed to read line"),
        }
    }
}

/// The message that [`Error::message`] returns for each cause.
pub open spec fn kind_message(k: ErrorKindV) -> Seq<char> {
    match k {
        ErrorKindV::UndefinedIdentifier(_) => "undefined identifier"@,
        ErrorKindV::UnknownBuiltin(_) => "unknown builtin function"@,
        ErrorKindV::TypeMismatch { .. } => "type mismatch"@,
        ErrorKindV::UnknownOperator(_) => "not an operator"@,
        ErrorKindV::ArityTooFew { .. } => "too few arguments"@,
        ErrorKindV::ArityTooMany { .. } => "too many arguments"@,
        ErrorKindV::UnsupportedArgument(_) => "argument not supported"@,
        ErrorKindV::InvalidPlaceholder(_) => "invalid placeholder"@,
        ErrorKindV::ArgumentCount => "not enough arguments for format string"@,
        ErrorKindV::UnclosedPlaceholder => "unclosed placeholder"@,
        ErrorKindV::DepthExceeded => "call depth limit exceeded"@,
        ErrorKindV::ReadInitFailed => "failed to initialize readline"@,
        ErrorKindV::ReadFailed => "failed to read line"@,
    }
}

} // verus!
