use faucet_contract::contract::{
    execute, instantiate, query, query_addresses, query_rewards, release_rewards, Response,
    REWARD_DENOM,
};
use faucet_contract::error::ContractError;
use faucet_contract::msg::{
    AddressesResponse, Coin, ExecuteMsg, InstantiateMsg, MessageInfo, QueryMsg, QueryResponse,
    RewardsResponse,
};
use faucet_contract::state::State;

fn info(sender: &str, funds: &[(u128, &str)]) -> MessageInfo {
    MessageInfo {
        sender: sender.to_string(),
        funds: funds
            .iter()
            .map(|(amount, denom)| Coin { denom: denom.to_string(), amount: *amount })
            .collect(),
    }
}

fn setup() -> State {
    let (state, _) = instantiate(
        &info("owner", &[]),
        InstantiateMsg { auction_contract: "A1".to_string() },
    );
    state
}

fn attr(r: &Response, i: usize) -> (String, String) {
    (r.attributes[i].key.clone(), r.attributes[i].value.clone())
}

fn pair(k: &str, v: &str) -> (String, String) {
    (k.to_string(), v.to_string())
}

#[test]
fn proper_initialization() {
    let (state, res) = instantiate(
        &info("creator", &[(1000, "earth")]),
        InstantiateMsg { auction_contract: "auction".to_string() },
    );
    assert_eq!(0, res.messages.len());
    assert_eq!(res.attributes.len(), 3);
    assert_eq!(attr(&res, 0), pair("method", "instantiate"));
    assert_eq!(attr(&res, 1), pair("owner", "creator"));
    assert_eq!(attr(&res, 2), pair("auction_address", "auction"));
    assert_eq!(state.owner, "creator");
    assert_eq!(state.auction_address, "auction");
    assert!(!state.allowed);
    assert_eq!(
        query(&state, QueryMsg::GetRewards {}),
        QueryResponse::Rewards(RewardsResponse { total_rewards: 0 })
    );
    assert_eq!(
        query(&state, QueryMsg::GetAddresses {}),
        QueryResponse::Addresses(AddressesResponse { total_addresses: 0 })
    );
}

#[test]
fn scenario_full_cycle_pays_whole_pool_to_single_address() {
    let mut state = setup();
    let r = execute(&mut state, &info("owner", &[(100, "cgas")]), ExecuteMsg::AddRewards {}, false)
        .unwrap();
    assert_eq!(state.total_rewards, 100);
    assert_eq!(attr(&r, 0), pair("method", "add_rewards"));
    assert_eq!(attr(&r, 1), pair("amount", "100"));

    let r = execute(
        &mut state,
        &info("A1", &[]),
        ExecuteMsg::Register { address: "user1".to_string() },
        false,
    )
    .unwrap();
    assert_eq!(state.total_addresses, 1);
    assert_eq!(r.registration, Some("user1".to_string()));

    execute(&mut state, &info("owner", &[]), ExecuteMsg::AllowRelease {}, false).unwrap();
    assert!(state.allowed);

    let before = state.clone();
    let r = execute(&mut state, &info("user1", &[]), ExecuteMsg::ReleaseRewards {}, true).unwrap();
    assert_eq!(state, before);
    assert_eq!(r.messages.len(), 1);
    assert_eq!(r.messages[0].to_address, "user1");
    assert_eq!(
        r.messages[0].amount,
        vec![Coin { denom: REWARD_DENOM.to_string(), amount: 100 }]
    );
    assert_eq!(attr(&r, 0), pair("method", "try_increment"));
}

#[test]
fn scenario_wrong_denomination_is_refused() {
    let mut state = setup();
    let before = state.clone();
    let r = execute(&mut state, &info("owner", &[(100, "uatom")]), ExecuteMsg::AddRewards {}, false);
    assert_eq!(r, Err(ContractError::WrongDenom {}));
    assert_eq!(state, before);
}

#[test]
fn deposit_without_funds_is_wrong_denomination() {
    let mut state = setup();
    let r = execute(&mut state, &info("owner", &[]), ExecuteMsg::AddRewards {}, false);
    assert_eq!(r, Err(ContractError::WrongDenom {}));
    assert_eq!(state.total_rewards, 0);
}

#[test]
fn deposit_reads_only_first_fund() {
    let mut state = setup();
    let r = execute(
        &mut state,
        &info("owner", &[(5, "uatom"), (7, "cgas")]),
        ExecuteMsg::AddRewards {},
        false,
    );
    assert_eq!(r, Err(ContractError::WrongDenom {}));
    execute(
        &mut state,
        &info("owner", &[(7, "cgas"), (5, "uatom")]),
        ExecuteMsg::AddRewards {},
        false,
    )
    .unwrap();
    assert_eq!(state.total_rewards, 7);
}

#[test]
fn deposit_overflow_is_refused() {
    let mut state = setup();
    execute(&mut state, &info("owner", &[(u128::MAX, "cgas")]), ExecuteMsg::AddRewards {}, false)
        .unwrap();
    let r = execute(&mut state, &info("owner", &[(1, "cgas")]), ExecuteMsg::AddRewards {}, false);
    assert_eq!(r, Err(ContractError::Overflow {}));
    assert_eq!(state.total_rewards, u128::MAX);
}

#[test]
fn scenario_register_by_stranger_is_unauthorized() {
    let mut state = setup();
    let r = execute(
        &mut state,
        &info("mallory", &[]),
        ExecuteMsg::Register { address: "user1".to_string() },
        false,
    );
    assert_eq!(r, Err(ContractError::Unauthorized {}));
    assert_eq!(state.total_addresses, 0);
}

#[test]
fn owner_cannot_register() {
    let mut state = setup();
    let r = execute(
        &mut state,
        &info("owner", &[]),
        ExecuteMsg::Register { address: "user1".to_string() },
        false,
    );
    assert_eq!(r, Err(ContractError::Unauthorized {}));
}

#[test]
fn scenario_deposit_after_open_release_is_phase_violation() {
    let mut state = setup();
    execute(&mut state, &info("owner", &[(40, "cgas")]), ExecuteMsg::AddRewards {}, false).unwrap();
    execute(&mut state, &info("owner", &[]), ExecuteMsg::AllowRelease {}, false).unwrap();
    let r = execute(&mut state, &info("owner", &[(100, "cgas")]), ExecuteMsg::AddRewards {}, false);
    assert_eq!(r, Err(ContractError::Allowed {}));
    assert_eq!(state.total_rewards, 40);
}

#[test]
fn register_after_open_release_is_phase_violation() {
    let mut state = setup();
    execute(&mut state, &info("owner", &[]), ExecuteMsg::AllowRelease {}, false).unwrap();
    let r = execute(
        &mut state,
        &info("A1", &[]),
        ExecuteMsg::Register { address: "user1".to_string() },
        false,
    );
    assert_eq!(r, Err(ContractError::Allowed {}));
    assert_eq!(state.total_addresses, 0);
}

#[test]
fn scenario_release_by_unregistered_is_unauthorized() {
    let mut state = setup();
    execute(&mut state, &info("owner", &[(100, "cgas")]), ExecuteMsg::AddRewards {}, false).unwrap();
    execute(
        &mut state,
        &info("A1", &[]),
        ExecuteMsg::Register { address: "user1".to_string() },
        false,
    )
    .unwrap();
    execute(&mut state, &info("owner", &[]), ExecuteMsg::AllowRelease {}, false).unwrap();
    let r = execute(&mut state, &info("stranger", &[]), ExecuteMsg::ReleaseRewards {}, false);
    assert_eq!(r, Err(ContractError::Unauthorized {}));
}

#[test]
fn release_while_closed_is_unauthorized() {
    let mut state = setup();
    execute(&mut state, &info("owner", &[(100, "cgas")]), ExecuteMsg::AddRewards {}, false).unwrap();
    execute(
        &mut state,
        &info("A1", &[]),
        ExecuteMsg::Register { address: "user1".to_string() },
        false,
    )
    .unwrap();
    let r = release_rewards(&state, &info("user1", &[]), true);
    assert_eq!(r, Err(ContractError::Unauthorized {}));
}

#[test]
fn scenario_release_with_no_addresses_is_guarded_error() {
    let mut state = setup();
    execute(&mut state, &info("owner", &[(100, "cgas")]), ExecuteMsg::AddRewards {}, false).unwrap();
    execute(&mut state, &info("owner", &[]), ExecuteMsg::AllowRelease {}, false).unwrap();
    assert_eq!(state.total_addresses, 0);
    let r = execute(&mut state, &info("ghost", &[]), ExecuteMsg::ReleaseRewards {}, true);
    assert_eq!(r, Err(ContractError::NoRegisteredAddresses {}));
}

#[test]
fn share_is_rounded_down() {
    let mut state = setup();
    execute(&mut state, &info("owner", &[(100, "cgas")]), ExecuteMsg::AddRewards {}, false).unwrap();
    for a in ["u1", "u2", "u3"] {
        execute(
            &mut state,
            &info("A1", &[]),
            ExecuteMsg::Register { address: a.to_string() },
            false,
        )
        .unwrap();
    }
    assert_eq!(state.total_addresses, 3);
    execute(&mut state, &info("owner", &[]), ExecuteMsg::AllowRelease {}, false).unwrap();
    let r = release_rewards(&state, &info("u2", &[]), true).unwrap();
    assert_eq!(r.messages[0].amount[0].amount, 33);
    assert_eq!(r.messages[0].to_address, "u2");
}

#[test]
fn repeated_claims_each_pay_a_share() {
    let mut state = setup();
    execute(&mut state, &info("owner", &[(10, "cgas")]), ExecuteMsg::AddRewards {}, false).unwrap();
    execute(
        &mut state,
        &info("A1", &[]),
        ExecuteMsg::Register { address: "u1".to_string() },
        false,
    )
    .unwrap();
    execute(&mut state, &info("owner", &[]), ExecuteMsg::AllowRelease {}, false).unwrap();
    let a = release_rewards(&state, &info("u1", &[]), true).unwrap();
    let b = release_rewards(&state, &info("u1", &[]), true).unwrap();
    assert_eq!(a, b);
    assert_eq!(b.messages[0].amount[0].amount, 10);
}

#[test]
fn re_registration_counts_twice() {
    let mut state = setup();
    for _ in 0..2 {
        execute(
            &mut state,
            &info("A1", &[]),
            ExecuteMsg::Register { address: "u1".to_string() },
            false,
        )
        .unwrap();
    }
    assert_eq!(state.total_addresses, 2);
}

#[test]
fn phase_toggles_are_owner_only_and_cycle() {
    let mut state = setup();
    let r = execute(&mut state, &info("A1", &[]), ExecuteMsg::AllowRelease {}, false);
    assert_eq!(r, Err(ContractError::Unauthorized {}));
    assert!(!state.allowed);
    let r = execute(&mut state, &info("owner", &[]), ExecuteMsg::AllowRelease {}, false).unwrap();
    assert_eq!(attr(&r, 0), pair("method", "try_increment"));
    execute(&mut state, &info("owner", &[]), ExecuteMsg::AllowRelease {}, false).unwrap();
    assert!(state.allowed);
    let r = execute(&mut state, &info("user1", &[]), ExecuteMsg::RefuseRelease {}, false);
    assert_eq!(r, Err(ContractError::Unauthorized {}));
    assert!(state.allowed);
    execute(&mut state, &info("owner", &[]), ExecuteMsg::RefuseRelease {}, false).unwrap();
    assert!(!state.allowed);
    execute(&mut state, &info("owner", &[(3, "cgas")]), ExecuteMsg::AddRewards {}, false).unwrap();
    assert_eq!(state.total_rewards, 3);
}

#[test]
fn register_counter_overflow_is_refused() {
    let mut state = setup();
    state.total_addresses = u128::MAX;
    let r = execute(
        &mut state,
        &info("A1", &[]),
        ExecuteMsg::Register { address: "u1".to_string() },
        false,
    );
    assert_eq!(r, Err(ContractError::Overflow {}));
    assert_eq!(state.total_addresses, u128::MAX);
}

#[test]
fn queries_report_totals() {
    let mut state = setup();
    execute(&mut state, &info("owner", &[(8, "cgas")]), ExecuteMsg::AddRewards {}, false).unwrap();
    execute(
        &mut state,
        &info("A1", &[]),
        ExecuteMsg::Register { address: "u1".to_string() },
        false,
    )
    .unwrap();
    assert_eq!(query_rewards(&state), RewardsResponse { total_rewards: 8 });
    assert_eq!(query_addresses(&state), AddressesResponse { total_addresses: 1 });
}

#[test]
fn deposit_by_non_owner_is_unauthorized() {
    let mut state = setup();
    let before = state.clone();
    let r = execute(&mut state, &info("A1", &[(100, "cgas")]), ExecuteMsg::AddRewards {}, false);
    assert_eq!(r, Err(ContractError::Unauthorized {}));
    let r = execute(&mut state, &info("user1", &[(5, "uatom")]), ExecuteMsg::AddRewards {}, false);
    assert_eq!(r, Err(ContractError::Unauthorized {}));
    assert_eq!(state, before);
}
