use vstd::prelude::*;

verus! {

/// Parameters of contract creation.
#[derive(Clone, Debug, PartialEq, Eq)]
pub struct InstantiateMsg {
    pub auction_contract: String,
}

/// State-changing operations.
#[derive(Clone, Debug, PartialEq, Eq)]
pub enum ExecuteMsg {
    /// Deposit the attached designated tokens into the pool.
    AddRewards {},
    /// Claim one equal share of the pool.
    ReleaseRewards {},
    /// Record an address as eligible for a share.
    Register { address: String },
    /// Open the distribution phase.
    AllowRelease {},
    /// Close the distribution phase.
    RefuseRelease {},
}

/// Read-only operations.
#[derive(Clone, Copy, Debug, PartialEq, Eq, Structural)]
pub enum QueryMsg {
    /// The amount pooled so far.
    GetRewards {},
    /// The number of registrations counted so far.
    GetAddresses {},
}

/// Answer to [`QueryMsg::GetRewards`].
#[derive(Clone, Copy, Debug, PartialEq, Eq, Structural)]
pub struct RewardsResponse {
    pub total_rewards: u128,
}

/// Answer to [`QueryMsg::GetAddresses`].
#[derive(Clone, Copy, Debug, PartialEq, Eq, Structural)]
pub struct AddressesResponse {
    pub total_addresses: u128,
}

/// Answer to any query.
#[derive(Clone, Copy, Debug, PartialEq, Eq, Structural)]
pub enum QueryResponse {
    Rewards(RewardsResponse),
    Addresses(AddressesResponse),
}

/// An amount of one token type.
#[derive(Clone, Debug, PartialEq, Eq)]
pub struct Coin {
    pub denom: String,
    pub amount: u128,
}

/// What the host tells about an inbound message: who sent it (already
/// authenticated) and which funds came with it.
#[derive(Clone, Debug, PartialEq, Eq)]
pub struct MessageInfo {
    pub sender: String,
    pub funds: Vec<Coin>,
}

} // verus!
