//! Laws of the faucet state machine, stated over the outcome functions that
//! the operations' contracts use.
use vstd::prelude::*;

use crate::contract::{
    deposit_outcome, execute_outcome, register_outcome, release_outcome, reward_denom,
    toggle_outcome,
};
use crate::error::ContractError;
use crate::msg::{Coin, ExecuteMsg};
use crate::state::StateModel;

verus! {

/// While distribution is open, every deposit and every registration fails.
/// A deposit by the owner whose first fund is of the designated token, and a
/// registration asked by the auction collaborator, fail with `Allowed`.
pub proof fn lemma_distribution_refuses_deposit_and_register(
    s: StateModel,
    sender: Seq<char>,
    funds: Seq<Coin>,
)
    requires
        s.allowed,
    ensures
        deposit_outcome(s, sender, funds) is Err,
        register_outcome(s, sender) is Err,
        sender == s.owner && funds.len() > 0 && funds[0].denom@ == reward_denom()
            ==> deposit_outcome(s, sender, funds)
            == Err::<StateModel, ContractError>(ContractError::Allowed {  }),
        sender == s.auction_address ==> register_outcome(s, sender) == Err::<
            StateModel,
            ContractError,
        >(ContractError::Allowed {  }),
{
}

/// A deposit succeeds only when the owner asks; opening and closing the
/// release succeed exactly when the owner asks; any other caller gets
/// `Unauthorized` from all three. A registration succeeds only when the
/// auction collaborator asks, and any other caller, the owner included, gets
/// `Unauthorized`.
pub proof fn lemma_roles_are_enforced(s: StateModel, sender: Seq<char>, funds: Seq<Coin>, b: bool)
    ensures
        deposit_outcome(s, sender, funds) is Ok ==> sender == s.owner,
        sender != s.owner ==> deposit_outcome(s, sender, funds) == Err::<StateModel, ContractError>(
            ContractError::Unauthorized {  },
        ),
        toggle_outcome(s, sender, b) is Ok <==> sender == s.owner,
        sender != s.owner ==> toggle_outcome(s, sender, b) == Err::<StateModel, ContractError>(
            ContractError::Unauthorized {  },
        ),
        register_outcome(s, sender) is Ok ==> sender == s.auction_address,
        sender != s.auction_address ==> register_outcome(s, sender) == Err::<
            StateModel,
            ContractError,
        >(ContractError::Unauthorized {  }),
{
}

/// No message ever lowers the pool or the registration counter; in
/// particular they only grow during accumulation.
pub proof fn lemma_totals_never_decrease(
    s: StateModel,
    sender: Seq<char>,
    funds: Seq<Coin>,
    msg: ExecuteMsg,
    registered: bool,
)
    ensures
        execute_outcome(s, sender, funds, msg, registered) is Ok ==> {
            let t = execute_outcome(s, sender, funds, msg, registered)->Ok_0;
            &&& t.total_rewards >= s.total_rewards
            &&& t.total_addresses >= s.total_addresses
        },
{
}

/// With the release open and `n > 0` addresses counted, a registered
/// claimant is paid exactly `floor(r / n)` of a pool of `r`.
pub proof fn lemma_share_is_floor_of_pool_over_count(s: StateModel)
    requires
        s.allowed,
        s.total_addresses > 0,
    ensures
        release_outcome(s, true) == Ok::<u128, ContractError>(
            (s.total_rewards / s.total_addresses) as u128,
        ),
        release_outcome(s, true)->Ok_0 * s.total_addresses <= s.total_rewards,
{
    let q = s.total_rewards / s.total_addresses;
    assert(q * s.total_addresses <= s.total_rewards) by (nonlinear_arith)
        requires
            s.total_addresses > 0,
            q == s.total_rewards / s.total_addresses,
    ;
}

/// A successful registration adds exactly one to the counter and changes
/// nothing else.
pub proof fn lemma_register_counts_one(s: StateModel, sender: Seq<char>)
    ensures
        register_outcome(s, sender) is Ok ==> register_outcome(s, sender)->Ok_0 == s.with_addresses(
            (s.total_addresses + 1) as u128,
        ),
        register_outcome(s, sender) is Ok ==> register_outcome(s, sender)->Ok_0.total_addresses
            == s.total_addresses + 1,
{
}

} // verus!
