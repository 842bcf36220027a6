use vstd::prelude::*;

verus! {

/// Why the contract cannot serve a request.
#[derive(Clone, Copy, Debug, PartialEq, Eq, Structural)]
pub enum ContractError {
    /// Nothing is stored under the registry key.
    MissingApps,
    /// What is stored under the registry key is not a JSON map from text to text.
    MalformedApps,
    /// The registry holds no application of the name asked for.
    AppNotFound,
    /// An event came that the current phase of an invocation does not expect.
    UnexpectedEvent,
}

} // verus!
