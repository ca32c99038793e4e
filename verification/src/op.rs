//! What an operation of the differentiation graph answers when it cannot take
//! its inputs.

use vstd::prelude::*;

verus! {

/// Error of an operation on its inputs.
#[derive(Debug)]
pub enum OpError {
    /// The inputs are too few or have a shape that the operation cannot take.
    IncompatibleShape(String),
}

/// Whether `r` is the shape failure with the message `text`.
pub open spec fn is_shape_failure<V>(r: Result<V, OpError>, text: Seq<char>) -> bool {
    match r {
        Err(OpError::IncompatibleShape(m)) => m@ == text,
        _ => false,
    }
}

} // verus!
