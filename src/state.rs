use vstd::prelude::*;

verus! {

/// The persisted singleton record of the faucet.
#[derive(Clone, Debug, PartialEq, Eq)]
pub struct State {
    /// The only identity allowed to register addresses.
    pub auction_address: String,
    /// Amount of the designated token pooled so far.
    pub total_rewards: u128,
    /// Number of successful registrations.
    pub total_addresses: u128,
    /// `false` while accumulating, `true` while distributing.
    pub allowed: bool,
    /// The identity allowed to toggle the phase.
    pub owner: String,
}

/// The faucet's state as mathematical values.
pub ghost struct StateModel {
    pub auction_address: Seq<char>,
    pub total_rewards: u128,
    pub total_addresses: u128,
    pub allowed: bool,
    pub owner: Seq<char>,
}

impl View for State {
    type V = StateModel;

    open spec fn view(&self) -> StateModel {
        StateModel {
            auction_address: self.auction_address@,
            total_rewards: self.total_rewards,
            total_addresses: self.total_addresses,
            allowed: self.allowed,
            owner: self.owner@,
        }
    }
}

impl StateModel {
    /// The same state with the pool set to `v`.
    pub open spec fn with_rewards(self, v: u128) -> StateModel {
        StateModel { total_rewards: v, ..self }
    }

    /// The same state with the registration counter set to `v`.
    pub open spec fn with_addresses(self, v: u128) -> StateModel {
        StateModel { total_addresses: v, ..self }
    }

    /// The same state with the phase flag set to `b`.
    pub open spec fn with_allowed(self, b: bool) -> StateModel {
        StateModel { allowed: b, ..self }
    }
}

} // verus!
