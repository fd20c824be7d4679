//! What can go wrong with an expression: where, and in which way.

use vstd::prelude::*;

verus! {

/// The ways in which the text of an expression can be malformed.
#[derive(Clone, Copy, Debug, PartialEq, Eq, Structural)]
pub enum ParseFault {
    /// A character that starts no token.
    UnexpectedCharacter,
    /// A string literal whose closing quote is missing.
    UnterminatedString,
    /// An integer literal beyond the 64-bit range.
    NumberOutOfRange,
    /// A token that cannot stand where it stands.
    UnexpectedToken,
    /// The text ends where an operand is due.
    UnexpectedEnd,
    /// A parenthesis that is never closed.
    UnbalancedParenthesis,
    /// Text that remains after a complete expression.
    TrailingInput,
}

/// A malformed expression: the fault, and the character at which it was met.
#[derive(Clone, Copy, Debug, PartialEq, Eq, Structural)]
pub struct ParseError {
    pub position: usize,
    pub fault: ParseFault,
}

/// The ways in which a well-formed expression can fail to yield a value.
#[derive(Clone, Copy, Debug, PartialEq, Eq, Structural)]
pub enum EvalFault {
    /// A name that is bound to nothing.
    UnresolvedReference,
    /// A call of a function that is not registered.
    UnknownFunction,
    /// An operator or a function applied to values it does not take.
    TypeMismatch,
    /// A regular expression that does not compile.
    InvalidPattern,
    /// An instant that no calendar date can be given for.
    TimeOutOfRange,
}

/// A failed evaluation: the fault, and where the failing part of the
/// expression starts.
#[derive(Clone, Copy, Debug, PartialEq, Eq, Structural)]
pub struct EvalError {
    pub position: usize,
    pub fault: EvalFault,
}

/// Why an expression gave no value.
#[derive(Clone, Copy, Debug, PartialEq, Eq, Structural)]
pub enum Failure {
    Parse(ParseError),
    Eval(EvalError),
}

} // verus!
