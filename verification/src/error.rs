//! Errors the dispatcher can surface to the invoking runtime. Every failure
//! is terminal for the current invocation and is returned, never swallowed.

use vstd::prelude::*;

verus! {

/// The distinguishable failure kinds of one invocation.
#[derive(Clone, Copy, Debug, PartialEq, Eq, Structural)]
pub enum ErrorKind {
    /// The identifier the runtime invoked does not match the identifier this
    /// program was deployed under; raised before any decoding.
    IncorrectProgramIdentifier,
    /// The instruction payload does not decode to any known variant.
    MalformedInstructionData,
    /// The account sequence is shorter than the decoded variant requires.
    MissingRequiredAccount,
}

} // verus!
