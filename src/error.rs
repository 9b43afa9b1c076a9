use vstd::prelude::*;

verus! {

/// Every way an operation of the faucet can fail. A failed operation leaves
/// the state as it was.
#[derive(Debug, Clone, PartialEq, Eq)]
pub enum ContractError {
    /// The persisted-state collaborator failed; its message is kept.
    Std(String),
    /// The caller lacks the role the operation needs, or (for a release) the
    /// distribution phase is closed.
    Unauthorized {},
    /// The first attached fund is not of the designated token, or no fund is
    /// attached at all.
    WrongDenom {},
    /// Deposits and registrations are refused while distribution is open.
    Allowed {},
    /// A release was asked while no address is counted, so no share exists.
    NoRegisteredAddresses {},
    /// A counter would pass the largest amount that can be held.
    Overflow {},
}

} // verus!
