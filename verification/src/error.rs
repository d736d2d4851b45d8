//! Recoverable failures reported by blocks.

use vstd::prelude::*;

verus! {

/// The kind of a recoverable failure a block can report from `warmup`,
/// `set_param` or `activate`.
#[derive(Clone, Copy, PartialEq, Eq, Structural, Debug)]
pub enum ErrorKind {
    /// A value's discriminant does not match the expected shape.
    ShapeMismatch,
    /// A native object is present but carries the wrong type tag.
    TypeTagMismatch,
    /// A named variable, simulation or body handle is absent at point of use.
    NotFound,
    /// A parameter value was rejected at `set_param`.
    InvalidParameter,
    /// A wrapped external library reported failure.
    ExternalFailure,
}

/// A recoverable failure: a kind plus a short diagnostic message.
///
/// Lifecycle misuse (`get` on an unbound slot, an out-of-range parameter
/// index) is a programming error, not a reported failure: such calls are
/// excluded by `requires` clauses instead.
#[derive(Debug)]
pub struct BlockError {
    pub kind: ErrorKind,
    pub message: String,
}

impl BlockError {
    pub fn new(kind: ErrorKind, message: &str) -> (r: BlockError)
        ensures
            r.kind == kind,
            r.message@ == message@,
    {
        BlockError { kind, message: message.to_owned() }
    }
}

} // verus!
