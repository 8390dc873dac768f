use custom_token::error::ContractError;
use custom_token::response::{AttrValue, Attribute};
use custom_token::state::{AllowanceResponse, TokenState};
use custom_token::token::{
    execute, instantiate, query, ExecuteMsg, InstantiateMsg, QueryMsg, QueryResponse,
    DEFAULT_MINT_AMOUNT, MINT_INTERVAL_SECONDS,
};

fn setup(initial_supply: u128) -> TokenState {
    let sender = "alice".to_string();
    let msg = InstantiateMsg {
        name: "Custom Token".to_string(),
        symbol: "CTK".to_string(),
        decimals: 6,
        initial_supply,
        fee_receiver: "carol".to_string(),
        owner: None,
    };
    let (state, _resp) = instantiate(&sender, msg);
    state
}

fn balance_of(state: &TokenState, addr: &str) -> u128 {
    match query(state, QueryMsg::Balance { address: addr.to_string() }) {
        Ok(QueryResponse::Balance(b)) => b.balance,
        _ => panic!("unexpected balance response"),
    }
}

fn total_burned(state: &TokenState) -> u128 {
    match query(state, QueryMsg::GetTotalBurned {}) {
        Ok(QueryResponse::TotalBurned(t)) => t.total_burned,
        _ => panic!("unexpected total-burned response"),
    }
}

fn total_supply(state: &TokenState) -> u128 {
    match query(state, QueryMsg::TokenInfo {}) {
        Ok(QueryResponse::TokenInfo(t)) => t.total_supply,
        _ => panic!("unexpected token-info response"),
    }
}

#[test]
fn instantiate_sets_defaults_and_credits_owner() {
    let state = setup(1000);
    match query(&state, QueryMsg::GetConfig {}) {
        Ok(QueryResponse::Config(c)) => {
            assert_eq!(c.mint_interval_seconds, MINT_INTERVAL_SECONDS);
            assert_eq!(c.fee_percent.atomics, 10_000_000_000_000_000);
            assert_eq!(c.fee_receiver, "carol");
            assert_eq!(c.owner, "alice");
            assert_eq!(c.mint_amount, DEFAULT_MINT_AMOUNT);
            assert!(!c.mint_enabled);
            assert!(!c.immutable_mode);
        }
        _ => panic!("unexpected config response"),
    }
    assert_eq!(balance_of(&state, "alice"), 1000);
    assert_eq!(balance_of(&state, "bob"), 0);
    assert_eq!(total_burned(&state), 0);
    assert_eq!(total_supply(&state), 1000);
}

#[test]
fn instantiate_with_named_owner() {
    let sender = "deployer".to_string();
    let msg = InstantiateMsg {
        name: "Custom Token".to_string(),
        symbol: "CTK".to_string(),
        decimals: 6,
        initial_supply: 500,
        fee_receiver: "carol".to_string(),
        owner: Some("olivia".to_string()),
    };
    let (state, _resp) = instantiate(&sender, msg);
    assert_eq!(balance_of(&state, "olivia"), 500);
    assert_eq!(balance_of(&state, "deployer"), 0);
}

#[test]
fn transfer_splits_fee_exactly() {
    let mut state = setup(1000);
    let sender = "alice".to_string();
    let r = execute(
        &mut state,
        0,
        &sender,
        ExecuteMsg::Transfer { recipient: "bob".to_string(), amount: 100 },
    );
    assert!(r.is_ok());
    assert_eq!(balance_of(&state, "alice"), 900);
    assert_eq!(balance_of(&state, "bob"), 99);
    assert_eq!(balance_of(&state, "carol"), 1);
}

#[test]
fn transfer_emits_structured_attributes() {
    let mut state = setup(1000);
    let sender = "alice".to_string();
    let resp = execute(
        &mut state,
        0,
        &sender,
        ExecuteMsg::Transfer { recipient: "bob".to_string(), amount: 100 },
    )
    .unwrap();
    assert!(resp.messages.is_empty());
    let expected = vec![
        ("action", AttrValue::Text("transfer".to_string())),
        ("from", AttrValue::Text("alice".to_string())),
        ("to", AttrValue::Text("bob".to_string())),
        ("amount", AttrValue::Amount(99)),
        ("fee", AttrValue::Amount(1)),
    ];
    let got: Vec<Attribute> = resp.attributes;
    assert_eq!(got.len(), expected.len());
    for (a, (k, v)) in got.iter().zip(expected.iter()) {
        assert_eq!(a.key, *k);
        assert_eq!(a.value, *v);
    }
}

#[test]
fn transfer_insufficient_leaves_state_unchanged() {
    let mut state = setup(1000);
    let sender = "alice".to_string();
    let r = execute(
        &mut state,
        0,
        &sender,
        ExecuteMsg::Transfer { recipient: "bob".to_string(), amount: 2000 },
    );
    assert_eq!(r.unwrap_err(), ContractError::InsufficientBalance);
    assert_eq!(balance_of(&state, "alice"), 1000);
    assert_eq!(balance_of(&state, "bob"), 0);
    assert_eq!(balance_of(&state, "carol"), 0);
}

#[test]
fn transfer_conserves_three_way_sum() {
    let mut state = setup(1000);
    let sender = "alice".to_string();
    let before = balance_of(&state, "alice") + balance_of(&state, "bob")
        + balance_of(&state, "carol");
    execute(
        &mut state,
        0,
        &sender,
        ExecuteMsg::Transfer { recipient: "bob".to_string(), amount: 250 },
    )
    .unwrap();
    let after = balance_of(&state, "alice") + balance_of(&state, "bob")
        + balance_of(&state, "carol");
    assert_eq!(before, after);
}

#[test]
fn transfer_to_self_costs_exactly_the_fee() {
    let mut state = setup(1000);
    let sender = "alice".to_string();
    execute(
        &mut state,
        0,
        &sender,
        ExecuteMsg::Transfer { recipient: "alice".to_string(), amount: 100 },
    )
    .unwrap();
    assert_eq!(balance_of(&state, "alice"), 999);
    assert_eq!(balance_of(&state, "carol"), 1);
}

#[test]
fn transfer_overflowing_recipient_fails_atomically() {
    let mut state = setup(1000);
    let sender = "alice".to_string();
    state.balances.set_balance(&"bob".to_string(), u128::MAX);
    let r = execute(
        &mut state,
        0,
        &sender,
        ExecuteMsg::Transfer { recipient: "bob".to_string(), amount: 100 },
    );
    assert_eq!(r.unwrap_err(), ContractError::ArithmeticOverflow);
    assert_eq!(balance_of(&state, "alice"), 1000);
    assert_eq!(balance_of(&state, "bob"), u128::MAX);
    assert_eq!(balance_of(&state, "carol"), 0);
}

#[test]
fn burn_moves_all_three_counters_in_lockstep() {
    let mut state = setup(1000);
    let sender = "alice".to_string();
    let r = execute(&mut state, 0, &sender, ExecuteMsg::Burn { amount: 100 });
    assert!(r.is_ok());
    assert_eq!(balance_of(&state, "alice"), 900);
    assert_eq!(total_burned(&state), 100);
    assert_eq!(total_supply(&state), 900);
}

#[test]
fn burn_zero_is_invalid() {
    let mut state = setup(1000);
    let sender = "alice".to_string();
    let r = execute(&mut state, 0, &sender, ExecuteMsg::Burn { amount: 0 });
    assert_eq!(r.unwrap_err(), ContractError::InvalidAmount);
    assert_eq!(balance_of(&state, "alice"), 1000);
}

#[test]
fn burn_by_non_owner_is_unauthorized_and_changes_nothing() {
    let mut state = setup(1000);
    let sender = "bob".to_string();
    state.balances.set_balance(&sender, 500);
    let r = execute(&mut state, 0, &sender, ExecuteMsg::Burn { amount: 100 });
    assert_eq!(r.unwrap_err(), ContractError::Unauthorized);
    assert_eq!(balance_of(&state, "bob"), 500);
    assert_eq!(total_burned(&state), 0);
    assert_eq!(total_supply(&state), 1000);
}

#[test]
fn burn_more_than_balance_fails() {
    let mut state = setup(1000);
    let sender = "alice".to_string();
    let r = execute(&mut state, 0, &sender, ExecuteMsg::Burn { amount: 2000 });
    assert_eq!(r.unwrap_err(), ContractError::InsufficientBalance);
    assert_eq!(balance_of(&state, "alice"), 1000);
    assert_eq!(total_burned(&state), 0);
}

#[test]
fn mint_disabled_fails_regardless_of_time() {
    let mut state = setup(1000);
    let sender = "alice".to_string();
    for t in [0u64, MINT_INTERVAL_SECONDS, 10 * MINT_INTERVAL_SECONDS, u64::MAX] {
        let r = execute(&mut state, t, &sender, ExecuteMsg::Mint);
        assert_eq!(r.unwrap_err(), ContractError::MintDisabled);
    }
    assert_eq!(balance_of(&state, "alice"), 1000);
}

#[test]
fn mint_succeeds_once_per_interval_window() {
    let mut state = setup(1000);
    let owner = "alice".to_string();
    execute(&mut state, 0, &owner, ExecuteMsg::SetMintEnabled { enabled: true }).unwrap();
    let minter = "bob".to_string();
    // Never minted: immediately eligible.
    execute(&mut state, 0, &minter, ExecuteMsg::Mint).unwrap();
    assert_eq!(balance_of(&state, "bob"), DEFAULT_MINT_AMOUNT);
    // One second short of the cooldown.
    let r = execute(&mut state, MINT_INTERVAL_SECONDS - 1, &minter, ExecuteMsg::Mint);
    assert_eq!(r.unwrap_err(), ContractError::MintOnCooldown);
    assert_eq!(balance_of(&state, "bob"), DEFAULT_MINT_AMOUNT);
    // Exactly the cooldown.
    execute(&mut state, MINT_INTERVAL_SECONDS, &minter, ExecuteMsg::Mint).unwrap();
    assert_eq!(balance_of(&state, "bob"), 2 * DEFAULT_MINT_AMOUNT);
    assert_eq!(total_supply(&state), 1000 + 2 * DEFAULT_MINT_AMOUNT);
}

#[test]
fn mint_overflowing_balance_fails_atomically() {
    let mut state = setup(1000);
    let owner = "alice".to_string();
    execute(&mut state, 0, &owner, ExecuteMsg::SetMintEnabled { enabled: true }).unwrap();
    let minter = "bob".to_string();
    state.balances.set_balance(&minter, u128::MAX);
    let r = execute(&mut state, 0, &minter, ExecuteMsg::Mint);
    assert_eq!(r.unwrap_err(), ContractError::ArithmeticOverflow);
    assert_eq!(balance_of(&state, "bob"), u128::MAX);
    assert_eq!(total_supply(&state), 1000);
}

#[test]
fn governance_by_non_owner_is_unauthorized() {
    let mut state = setup(1000);
    let outsider = "mallory".to_string();
    let calls = [
        ExecuteMsg::SetMintAmount { amount: 5 },
        ExecuteMsg::SetMintEnabled { enabled: true },
        ExecuteMsg::TransferOwnership { new_owner: "mallory".to_string() },
        ExecuteMsg::LockOwnership,
    ];
    for msg in calls {
        let r = execute(&mut state, 0, &outsider, msg);
        assert_eq!(r.unwrap_err(), ContractError::Unauthorized);
    }
    match query(&state, QueryMsg::GetConfig {}) {
        Ok(QueryResponse::Config(c)) => {
            assert_eq!(c.owner, "alice");
            assert!(!c.mint_enabled);
            assert!(!c.immutable_mode);
            assert_eq!(c.mint_amount, DEFAULT_MINT_AMOUNT);
        }
        _ => panic!("unexpected config response"),
    }
}

#[test]
fn lock_blocks_every_governance_call_even_for_owner() {
    let mut state = setup(1000);
    let owner = "alice".to_string();
    execute(&mut state, 0, &owner, ExecuteMsg::LockOwnership).unwrap();
    let calls = [
        ExecuteMsg::SetMintAmount { amount: 5 },
        ExecuteMsg::SetMintEnabled { enabled: true },
        ExecuteMsg::TransferOwnership { new_owner: "bob".to_string() },
        ExecuteMsg::LockOwnership,
    ];
    for msg in calls {
        let r = execute(&mut state, 0, &owner, msg);
        assert_eq!(r.unwrap_err(), ContractError::ContractLocked);
    }
    // Plain transfers are not governance and still run.
    execute(
        &mut state,
        0,
        &owner,
        ExecuteMsg::Transfer { recipient: "bob".to_string(), amount: 100 },
    )
    .unwrap();
    assert_eq!(balance_of(&state, "bob"), 99);
}

#[test]
fn set_mint_amount_changes_minted_quantity() {
    let mut state = setup(1000);
    let owner = "alice".to_string();
    execute(&mut state, 0, &owner, ExecuteMsg::SetMintAmount { amount: 7 }).unwrap();
    execute(&mut state, 0, &owner, ExecuteMsg::SetMintEnabled { enabled: true }).unwrap();
    let minter = "bob".to_string();
    execute(&mut state, 0, &minter, ExecuteMsg::Mint).unwrap();
    assert_eq!(balance_of(&state, "bob"), 7);
}

#[test]
fn transfer_ownership_hands_over_owner_rights() {
    let mut state = setup(1000);
    let alice = "alice".to_string();
    let bob = "bob".to_string();
    execute(&mut state, 0, &alice, ExecuteMsg::TransferOwnership { new_owner: "bob".to_string() })
        .unwrap();
    let r = execute(&mut state, 0, &alice, ExecuteMsg::Burn { amount: 10 });
    assert_eq!(r.unwrap_err(), ContractError::Unauthorized);
    state.balances.set_balance(&bob, 50);
    execute(&mut state, 0, &bob, ExecuteMsg::Burn { amount: 10 }).unwrap();
    assert_eq!(balance_of(&state, "bob"), 40);
}

#[test]
fn transfer_from_charges_the_allowance() {
    let mut state = setup(1000);
    let alice = "alice".to_string();
    let bob = "bob".to_string();
    state.allowances.set(&alice, &bob, AllowanceResponse { allowance: 150, expires: 0 });
    execute(
        &mut state,
        0,
        &bob,
        ExecuteMsg::TransferFrom {
            owner: "alice".to_string(),
            recipient: "dave".to_string(),
            amount: 100,
        },
    )
    .unwrap();
    assert_eq!(balance_of(&state, "alice"), 900);
    assert_eq!(balance_of(&state, "dave"), 99);
    assert_eq!(balance_of(&state, "carol"), 1);
    let left = state.allowances.get(&alice, &bob).unwrap();
    assert_eq!(left.allowance, 50);
}

#[test]
fn transfer_from_without_allowance_fails() {
    let mut state = setup(1000);
    let bob = "bob".to_string();
    let r = execute(
        &mut state,
        0,
        &bob,
        ExecuteMsg::TransferFrom {
            owner: "alice".to_string(),
            recipient: "dave".to_string(),
            amount: 1,
        },
    );
    assert_eq!(r.unwrap_err(), ContractError::InsufficientAllowance);
    assert_eq!(balance_of(&state, "alice"), 1000);
    assert_eq!(balance_of(&state, "dave"), 0);
}

#[test]
fn unsupported_execute_messages_are_rejected() {
    let mut state = setup(1000);
    let sender = "alice".to_string();
    let calls = [
        ExecuteMsg::Send { contract: "c".to_string(), amount: 1, msg: vec![1, 2] },
        ExecuteMsg::IncreaseAllowance { spender: "bob".to_string(), amount: 1, expires: None },
        ExecuteMsg::DecreaseAllowance { spender: "bob".to_string(), amount: 1, expires: None },
    ];
    for msg in calls {
        let r = execute(&mut state, 0, &sender, msg);
        assert_eq!(r.unwrap_err(), ContractError::Unsupported);
    }
    assert_eq!(balance_of(&state, "alice"), 1000);
}

#[test]
fn unsupported_queries_are_rejected() {
    let state = setup(1000);
    let r = query(&state, QueryMsg::Minter {});
    assert_eq!(r.unwrap_err(), ContractError::Unsupported);
    let r = query(
        &state,
        QueryMsg::Allowance { owner: "alice".to_string(), spender: "bob".to_string() },
    );
    assert_eq!(r.unwrap_err(), ContractError::Unsupported);
}

#[test]
fn mint_info_defaults_to_epoch_zero() {
    let mut state = setup(1000);
    match query(&state, QueryMsg::GetMintInfo { address: "bob".to_string() }) {
        Ok(QueryResponse::MintInfo(mi)) => assert_eq!(mi.last_mint_time, 0),
        _ => panic!("unexpected mint-info response"),
    }
    let owner = "alice".to_string();
    execute(&mut state, 0, &owner, ExecuteMsg::SetMintEnabled { enabled: true }).unwrap();
    let minter = "bob".to_string();
    execute(&mut state, 777_777, &minter, ExecuteMsg::Mint).unwrap();
    match query(&state, QueryMsg::GetMintInfo { address: "bob".to_string() }) {
        Ok(QueryResponse::MintInfo(mi)) => assert_eq!(mi.last_mint_time, 777_777),
        _ => panic!("unexpected mint-info response"),
    }
}

#[test]
fn ledger_debit_over_balance_fails_and_changes_nothing() {
    let mut state = setup(1000);
    let alice = "alice".to_string();
    let r = state.balances.debit(&alice, 1001);
    assert_eq!(r.unwrap_err(), ContractError::InsufficientBalance);
    assert_eq!(balance_of(&state, "alice"), 1000);
    state.balances.debit(&alice, 1000).unwrap();
    assert_eq!(balance_of(&state, "alice"), 0);
}

#[test]
fn ledger_credit_overflow_fails_and_changes_nothing() {
    let mut state = setup(1000);
    let bob = "bob".to_string();
    state.balances.set_balance(&bob, u128::MAX - 5);
    let r = state.balances.credit(&bob, 6);
    assert_eq!(r.unwrap_err(), ContractError::ArithmeticOverflow);
    assert_eq!(balance_of(&state, "bob"), u128::MAX - 5);
    state.balances.credit(&bob, 5).unwrap();
    assert_eq!(balance_of(&state, "bob"), u128::MAX);
}
