use vstd::prelude::*;
use vstd::string::{to_string_from_display_ensures, StringExecFns};

use crate::error::ContractError;
use crate::msg::{
    AddressesResponse, Coin, ExecuteMsg, InstantiateMsg, MessageInfo, QueryMsg, QueryResponse,
    RewardsResponse,
};
use crate::state::{State, StateModel};

verus! {

/// The token type that the pool accepts and pays out.
pub const REWARD_DENOM: &'static str = "cgas";

/// [`REWARD_DENOM`] as a sequence of characters.
pub open spec fn reward_denom() -> Seq<char> {
    REWARD_DENOM@
}

/// A key/value pair recorded for auditing.
#[derive(Clone, Debug, PartialEq, Eq)]
pub struct Attribute {
    pub key: String,
    pub value: String,
}

/// An instruction to the host: send `amount` to `to_address`.
#[derive(Clone, Debug, PartialEq, Eq)]
pub struct BankMsg {
    pub to_address: String,
    pub amount: Vec<Coin>,
}

/// What a successful operation hands back to the host.
#[derive(Clone, Debug, PartialEq, Eq)]
pub struct Response {
    /// Audit attributes, in order.
    pub attributes: Vec<Attribute>,
    /// Outbound fund transfers, in order.
    pub messages: Vec<BankMsg>,
    /// An address to record in the registration set.
    pub registration: Option<String>,
}

/// The attributes of `r` as pairs of character sequences.
pub open spec fn attrs(r: Response) -> Seq<(Seq<char>, Seq<char>)> {
    r.attributes@.map_values(|a: Attribute| (a.key@, a.value@))
}

/// `m` sends exactly `amount` of the designated token to `to`.
pub open spec fn is_reward_transfer(m: BankMsg, to: Seq<char>, amount: u128) -> bool {
    &&& m.to_address@ == to
    &&& m.amount@.len() == 1
    &&& m.amount@[0].denom@ == reward_denom()
    &&& m.amount@[0].amount == amount
}

/// `r` carries only the given attributes: no transfer and no registration.
pub open spec fn is_plain_response(r: Response, a: Seq<(Seq<char>, Seq<char>)>) -> bool {
    &&& attrs(r) == a
    &&& r.messages@.len() == 0
    &&& r.registration is None
}

/// The state right after creation by `sender`.
pub open spec fn initial_state(sender: Seq<char>, auction: Seq<char>) -> StateModel {
    StateModel {
        auction_address: auction,
        total_rewards: 0,
        total_addresses: 0,
        allowed: false,
        owner: sender,
    }
}

/// Outcome of a deposit of `funds` by `sender` on `s`: only the owner may
/// deposit, and only the first fund is looked at.
pub open spec fn deposit_outcome(s: StateModel, sender: Seq<char>, funds: Seq<Coin>) -> Result<StateModel, ContractError> {
    if sender != s.owner {
        Err(ContractError::Unauthorized {  })
    } else if funds.len() == 0 || funds[0].denom@ != reward_denom() {
        Err(ContractError::WrongDenom {  })
    } else if s.allowed {
        Err(ContractError::Allowed {  })
    } else if s.total_rewards + funds[0].amount > u128::MAX {
        Err(ContractError::Overflow {  })
    } else {
        Ok(s.with_rewards((s.total_rewards + funds[0].amount) as u128))
    }
}

/// Outcome of setting the phase flag to `b` at the request of `sender`.
pub open spec fn toggle_outcome(s: StateModel, sender: Seq<char>, b: bool) -> Result<StateModel, ContractError> {
    if sender != s.owner {
        Err(ContractError::Unauthorized {  })
    } else {
        Ok(s.with_allowed(b))
    }
}

/// Outcome of a registration asked by `sender`.
pub open spec fn register_outcome(s: StateModel, sender: Seq<char>) -> Result<StateModel, ContractError> {
    if sender != s.auction_address {
        Err(ContractError::Unauthorized {  })
    } else if s.allowed {
        Err(ContractError::Allowed {  })
    } else if s.total_addresses == u128::MAX {
        Err(ContractError::Overflow {  })
    } else {
        Ok(s.with_addresses((s.total_addresses + 1) as u128))
    }
}

/// Outcome of a claim: the share paid out, where `registered` tells whether
/// the claimant is in the registration set.
pub open spec fn release_outcome(s: StateModel, registered: bool) -> Result<u128, ContractError> {
    if !registered || !s.allowed {
        Err(ContractError::Unauthorized {  })
    } else if s.total_addresses == 0 {
        Err(ContractError::NoRegisteredAddresses {  })
    } else {
        Ok((s.total_rewards / s.total_addresses) as u128)
    }
}

/// The state after `msg` from `sender` with `funds`; a release leaves it as it is.
pub open spec fn execute_outcome(
    s: StateModel,
    sender: Seq<char>,
    funds: Seq<Coin>,
    msg: ExecuteMsg,
    registered: bool,
) -> Result<StateModel, ContractError> {
    match msg {
        ExecuteMsg::AddRewards {  } => deposit_outcome(s, sender, funds),
        ExecuteMsg::ReleaseRewards {  } => match release_outcome(s, registered) {
            Ok(_) => Ok(s),
            Err(e) => Err(e),
        },
        ExecuteMsg::Register { address } => register_outcome(s, sender),
        ExecuteMsg::AllowRelease {  } => toggle_outcome(s, sender, true),
        ExecuteMsg::RefuseRelease {  } => toggle_outcome(s, sender, false),
    }
}

fn attribute(key: &str, value: String) -> (a: Attribute)
    ensures
        a.key@ == key@,
        a.value == value,
{
    Attribute { key: String::from_str(key), value }
}

fn response_with(attributes: Vec<Attribute>) -> (r: Response)
    ensures
        r.attributes@ == attributes@,
        r.messages@.len() == 0,
        r.registration is None,
{
    Response { attributes, messages: Vec::new(), registration: None }
}

fn method_response(method: &str) -> (r: Response)
    ensures
        is_plain_response(r, seq![("method"@, method@)]),
{
    let mut a: Vec<Attribute> = Vec::new();
    a.push(attribute("method", String::from_str(method)));
    let r = response_with(a);
    assert(attrs(r) =~= seq![("method"@, method@)]);
    r
}

/// Creates the faucet state: `info.sender` becomes the owner, the pool and
/// the counter start at zero and the accumulation phase is open.
pub fn instantiate(info: &MessageInfo, msg: InstantiateMsg) -> (r: (State, Response))
    ensures
        r.0@ == initial_state(info.sender@, msg.auction_contract@),
        is_plain_response(
            r.1,
            seq![
                ("method"@, "instantiate"@),
                ("owner"@, info.sender@),
                ("auction_address"@, msg.auction_contract@),
            ],
        ),
{
    let mut a: Vec<Attribute> = Vec::new();
    a.push(attribute("method", String::from_str("instantiate")));
    a.push(attribute("owner", info.sender.clone()));
    a.push(attribute("auction_address", msg.auction_contract.clone()));
    let state = State {
        auction_address: msg.auction_contract,
        total_rewards: 0,
        total_addresses: 0,
        allowed: false,
        owner: info.sender.clone(),
    };
    let r = response_with(a);
    assert(attrs(r) =~= seq![
        ("method"@, "instantiate"@),
        ("owner"@, info.sender@),
        ("auction_address"@, msg.auction_contract@),
    ]);
    (state, r)
}

/// `r` answers a successful deposit of `amount`.
pub open spec fn is_deposit_response(r: Response, amount: u128) -> bool {
    &&& attrs(r).len() == 2
    &&& attrs(r)[0] == ("method"@, "add_rewards"@)
    &&& attrs(r)[1].0 == "amount"@
    &&& to_string_from_display_ensures::<u128>(&amount, r.attributes@[1].value)
    &&& r.messages@.len() == 0
    &&& r.registration is None
}

/// `r` answers a successful phase change.
pub open spec fn is_toggle_response(r: Response) -> bool {
    is_plain_response(r, seq![("method"@, "try_increment"@)])
}

/// `r` answers a successful registration of `address`.
pub open spec fn is_register_response(r: Response, address: Seq<char>) -> bool {
    &&& attrs(r) == seq![("method"@, "register_address"@)]
    &&& r.messages@.len() == 0
    &&& r.registration is Some
    &&& r.registration->Some_0@ == address
}

/// `r` answers a successful claim by `to` of `share`.
pub open spec fn is_release_response(r: Response, to: Seq<char>, share: u128) -> bool {
    &&& attrs(r) == seq![("method"@, "try_increment"@)]
    &&& r.messages@.len() == 1
    &&& is_reward_transfer(r.messages@[0], to, share)
    &&& r.registration is None
}

/// Deposits the first attached fund into the pool.
///
/// Fails with `Unauthorized` unless the sender is the owner, then with
/// `WrongDenom` when no fund is attached or the first one is not
/// of the designated token, then with `Allowed` while distribution is open,
/// then with `Overflow` when the pool would pass `u128::MAX`.
pub fn add_rewards(state: &mut State, info: &MessageInfo) -> (r: Result<Response, ContractError>)
    ensures
        r is Ok <==> deposit_outcome(old(state)@, info.sender@, info.funds@) is Ok,
        r is Ok ==> final(state)@ == deposit_outcome(old(state)@, info.sender@, info.funds@)->Ok_0,
        r is Ok ==> is_deposit_response(r->Ok_0, info.funds@[0].amount),
        r is Err ==> r->Err_0 == deposit_outcome(old(state)@, info.sender@, info.funds@)->Err_0,
        r is Err ==> *final(state) == *old(state),
{
    if !(info.sender == state.owner) {
        return Err(ContractError::Unauthorized {  });
    }
    if info.funds.len() == 0 {
        return Err(ContractError::WrongDenom {  });
    }
    let denom = String::from_str(REWARD_DENOM);
    if !(info.funds[0].denom == denom) {
        return Err(ContractError::WrongDenom {  });
    }
    if state.allowed {
        return Err(ContractError::Allowed {  });
    }
    let amount = info.funds[0].amount;
    match state.total_rewards.checked_add(amount) {
        None => Err(ContractError::Overflow {  }),
        Some(total) => {
            state.total_rewards = total;
            let mut a: Vec<Attribute> = Vec::new();
            a.push(attribute("method", String::from_str("add_rewards")));
            a.push(attribute("amount", amount.to_string()));
            let r = response_with(a);
            assert(attrs(r)[0] == ("method"@, "add_rewards"@));
            Ok(r)
        },
    }
}

fn set_allowed(state: &mut State, info: &MessageInfo, b: bool) -> (r: Result<Response, ContractError>)
    ensures
        r is Ok <==> toggle_outcome(old(state)@, info.sender@, b) is Ok,
        r is Ok ==> final(state)@ == toggle_outcome(old(state)@, info.sender@, b)->Ok_0,
        r is Ok ==> is_toggle_response(r->Ok_0),
        r is Err ==> r->Err_0 == toggle_outcome(old(state)@, info.sender@, b)->Err_0,
        r is Err ==> *final(state) == *old(state),
{
    if !(info.sender == state.owner) {
        return Err(ContractError::Unauthorized {  });
    }
    state.allowed = b;
    Ok(method_response("try_increment"))
}

/// Opens the distribution phase. Only the owner may; setting the flag again
/// changes nothing.
pub fn allow_release(state: &mut State, info: &MessageInfo) -> (r: Result<Response, ContractError>)
    ensures
        r is Ok <==> toggle_outcome(old(state)@, info.sender@, true) is Ok,
        r is Ok ==> final(state)@ == toggle_outcome(old(state)@, info.sender@, true)->Ok_0,
        r is Ok ==> is_toggle_response(r->Ok_0),
        r is Err ==> r->Err_0 == toggle_outcome(old(state)@, info.sender@, true)->Err_0,
        r is Err ==> *final(state) == *old(state),
{
    set_allowed(state, info, true)
}

/// Closes the distribution phase. Only the owner may.
pub fn refuse_release(state: &mut State, info: &MessageInfo) -> (r: Result<Response, ContractError>)
    ensures
        r is Ok <==> toggle_outcome(old(state)@, info.sender@, false) is Ok,
        r is Ok ==> final(state)@ == toggle_outcome(old(state)@, info.sender@, false)->Ok_0,
        r is Ok ==> is_toggle_response(r->Ok_0),
        r is Err ==> r->Err_0 == toggle_outcome(old(state)@, info.sender@, false)->Err_0,
        r is Err ==> *final(state) == *old(state),
{
    set_allowed(state, info, false)
}

/// Pays `info.sender` one equal share of the pool, rounded down.
///
/// `sender_registered` tells whether the sender is in the registration set.
/// Fails with `Unauthorized` when it is not or when distribution is closed,
/// and with `NoRegisteredAddresses` when the counter is zero. The state is
/// not touched: a registered address may claim again while the phase lasts.
pub fn release_rewards(state: &State, info: &MessageInfo, sender_registered: bool) -> (r: Result<Response, ContractError>)
    ensures
        r is Ok <==> release_outcome(state@, sender_registered) is Ok,
        r is Ok ==> is_release_response(
            r->Ok_0,
            info.sender@,
            release_outcome(state@, sender_registered)->Ok_0,
        ),
        r is Err ==> r->Err_0 == release_outcome(state@, sender_registered)->Err_0,
{
    if !sender_registered {
        return Err(ContractError::Unauthorized {  });
    }
    if !state.allowed {
        return Err(ContractError::Unauthorized {  });
    }
    let share = match state.total_rewards.checked_div(state.total_addresses) {
        Some(q) => q,
        None => {
            return Err(ContractError::NoRegisteredAddresses {  });
        },
    };
    let mut amount: Vec<Coin> = Vec::new();
    amount.push(Coin { denom: String::from_str(REWARD_DENOM), amount: share });
    let mut messages: Vec<BankMsg> = Vec::new();
    messages.push(BankMsg { to_address: info.sender.clone(), amount });
    let mut a: Vec<Attribute> = Vec::new();
    a.push(attribute("method", String::from_str("try_increment")));
    let r = Response { attributes: a, messages, registration: None };
    assert(attrs(r) =~= seq![("method"@, "try_increment"@)]);
    Ok(r)
}

/// Counts a registration of `address`; the response names it for the
/// registration set.
///
/// Fails with `Unauthorized` unless the sender is the auction collaborator,
/// then with `Allowed` while distribution is open, then with `Overflow` when
/// the counter is at `u128::MAX`. An address registered before is counted
/// again.
pub fn register_address(state: &mut State, info: &MessageInfo, address: String) -> (r: Result<Response, ContractError>)
    ensures
        r is Ok <==> register_outcome(old(state)@, info.sender@) is Ok,
        r is Ok ==> final(state)@ == register_outcome(old(state)@, info.sender@)->Ok_0,
        r is Ok ==> is_register_response(r->Ok_0, address@),
        r is Err ==> r->Err_0 == register_outcome(old(state)@, info.sender@)->Err_0,
        r is Err ==> *final(state) == *old(state),
{
    if !(info.sender == state.auction_address) {
        return Err(ContractError::Unauthorized {  });
    }
    if state.allowed {
        return Err(ContractError::Allowed {  });
    }
    if state.total_addresses == u128::MAX {
        return Err(ContractError::Overflow {  });
    }
    state.total_addresses = state.total_addresses + 1;
    let mut r = method_response("register_address");
    r.registration = Some(address);
    Ok(r)
}

/// Runs one state-changing message. `sender_registered` tells whether
/// `info.sender` is in the registration set; only a release reads it.
pub fn execute(state: &mut State, info: &MessageInfo, msg: ExecuteMsg, sender_registered: bool) -> (r: Result<Response, ContractError>)
    ensures
        r is Ok <==> execute_outcome(old(state)@, info.sender@, info.funds@, msg, sender_registered) is Ok,
        r is Ok ==> final(state)@ == execute_outcome(
            old(state)@,
            info.sender@,
            info.funds@,
            msg,
            sender_registered,
        )->Ok_0,
        r is Err ==> r->Err_0 == execute_outcome(
            old(state)@,
            info.sender@,
            info.funds@,
            msg,
            sender_registered,
        )->Err_0,
        r is Err ==> *final(state) == *old(state),
        r is Ok ==> match msg {
            ExecuteMsg::AddRewards {  } => is_deposit_response(r->Ok_0, info.funds@[0].amount),
            ExecuteMsg::ReleaseRewards {  } => is_release_response(
                r->Ok_0,
                info.sender@,
                release_outcome(old(state)@, sender_registered)->Ok_0,
            ),
            ExecuteMsg::Register { address } => is_register_response(r->Ok_0, address@),
            ExecuteMsg::AllowRelease {  } => is_toggle_response(r->Ok_0),
            ExecuteMsg::RefuseRelease {  } => is_toggle_response(r->Ok_0),
        },
{
    match msg {
        ExecuteMsg::AddRewards {  } => add_rewards(state, info),
        ExecuteMsg::ReleaseRewards {  } => release_rewards(state, info, sender_registered),
        ExecuteMsg::Register { address } => register_address(state, info, address),
        ExecuteMsg::AllowRelease {  } => allow_release(state, info),
        ExecuteMsg::RefuseRelease {  } => refuse_release(state, info),
    }
}

/// The amount pooled so far.
pub fn query_rewards(state: &State) -> (r: RewardsResponse)
    ensures
        r.total_rewards == state.total_rewards,
{
    RewardsResponse { total_rewards: state.total_rewards }
}

/// The number of registrations counted so far.
pub fn query_addresses(state: &State) -> (r: AddressesResponse)
    ensures
        r.total_addresses == state.total_addresses,
{
    AddressesResponse { total_addresses: state.total_addresses }
}

/// Answers a read-only message; no caller is checked.
pub fn query(state: &State, msg: QueryMsg) -> (r: QueryResponse)
    ensures
        r == match msg {
            QueryMsg::GetRewards {  } => QueryResponse::Rewards(
                RewardsResponse { total_rewards: state.total_rewards },
            ),
            QueryMsg::GetAddresses {  } => QueryResponse::Addresses(
                AddressesResponse { total_addresses: state.total_addresses },
            ),
        },
{
    match msg {
        QueryMsg::GetRewards {  } => QueryResponse::Rewards(query_rewards(state)),
        QueryMsg::GetAddresses {  } => QueryResponse::Addresses(query_addresses(state)),
    }
}

} // verus!
