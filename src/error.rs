use vstd::prelude::*;

verus! {

/// Why an invocation is aborted before it changes anything.
#[derive(Clone, Copy, Debug, PartialEq, Eq, Structural)]
pub enum ContractError {
    /// The invocation did not carry the number of arguments that the entry
    /// point requires.
    ArgumentCountMismatch,
}

} // verus!
