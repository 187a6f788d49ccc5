//! The error type of the crate.

use vstd::prelude::*;

verus! {

/// Everything that an operation of this crate can report.
#[derive(Debug)]
pub enum Error {
    /// A node is not present in its context.
    BadNode,
    /// A variable is not present in its context.
    BadVar,
    /// The context is empty.
    EmptyContext,
    /// The map is empty.
    EmptyMap,
    /// An opcode is not known.
    UnknownOpcode(String),
    /// A variable is not known.
    UnknownVariable(String),
    /// The file is empty.
    EmptyFile,
    /// A choice slice of the first length was given to a tape with the second
    /// number of choice clauses.
    BadChoiceSlice(usize, usize),
    /// Slice lengths are mismatched.
    MismatchedSlices,
    /// A variable slice of the first length was given to a tape with the
    /// second number of variables.
    BadVarSlice(usize, usize),
    /// The name is reserved for the three coordinates.
    ReservedName,
    /// The name has already been used.
    DuplicateName,
}

} // verus!
