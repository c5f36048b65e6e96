//! Tests of the faucet's instantiate, execute and query operations.

use hackatom_faucet::contract::{
    execute_claim, execute_set_admin, execute_update_rate_limit, execute_update_token_config,
    instantiate, query_admin, query_balance, query_can_user_claim, query_rate_limit,
    query_token_configs, query_user_info, FaucetContract,
};
use hackatom_faucet::error::FaucetError;
use hackatom_faucet::msg::{BalanceEntry, InstantiateMsg, TransferMsg};
use hackatom_faucet::state::{
    Denom, TokenConfig, UserInfo, DEFAULT_CW20_AMOUNT, DEFAULT_NATIVE_AMOUNT, DEFAULT_RATE_LIMIT,
    NATIVE_DENOM,
};

/// Block time of the host's standard mock environment.
fn mock_time() -> u64 {
    1_571_797_419
}

fn default_instantiate_msg() -> InstantiateMsg {
    InstantiateMsg {
        admin: Some("admin".to_string()),
        tokens: vec![
            TokenConfig {
                denom: Denom::Native("untrn".to_string()),
                amount: DEFAULT_NATIVE_AMOUNT,
            },
            TokenConfig {
                denom: Denom::Cw20("cw20_token".to_string()),
                amount: DEFAULT_CW20_AMOUNT,
            },
        ],
        rate_limit_seconds: Some(DEFAULT_RATE_LIMIT),
    }
}

#[test]
fn test_instantiate() {
    let mut contract = FaucetContract::new();
    let msg = default_instantiate_msg();

    let response = instantiate(&mut contract, "creator".to_string(), msg);

    // Verify response attributes
    assert_eq!(response.attributes.len(), 4);
    assert_eq!(response.attributes[0].key, "method");
    assert_eq!(response.attributes[0].value, "instantiate");
    assert_eq!(response.attributes[1].key, "admin");
    assert_eq!(response.attributes[1].value, "admin");
    assert_eq!(response.attributes[2].key, "rate_limit");
    assert_eq!(response.attributes[2].value, DEFAULT_RATE_LIMIT.to_string());
    assert_eq!(response.attributes[3].key, "tokens_count");
    assert_eq!(response.attributes[3].value, "2");

    // Verify state stored in contract
    let state = contract.state.as_ref().unwrap();
    assert_eq!(state.admin, "admin");
    assert_eq!(state.rate_limit_seconds, DEFAULT_RATE_LIMIT);
    assert_eq!(state.tokens.len(), 2);
    assert_eq!(state.tokens[0].denom, Denom::Native("untrn".to_string()));
    assert_eq!(state.tokens[0].amount, DEFAULT_NATIVE_AMOUNT);
    assert_eq!(state.tokens[1].denom, Denom::Cw20("cw20_token".to_string()));
    assert_eq!(state.tokens[1].amount, DEFAULT_CW20_AMOUNT);
}

#[test]
fn test_execute_claim_native() {
    let mut contract = FaucetContract::new();
    // Contract balance: 100_000 of the native denom
    let balances = vec![100_000u128];

    let msg = InstantiateMsg {
        admin: None,
        tokens: vec![TokenConfig {
            denom: Denom::Native(NATIVE_DENOM.to_string()),
            amount: DEFAULT_NATIVE_AMOUNT,
        }],
        rate_limit_seconds: None,
    };
    instantiate(&mut contract, "creator".to_string(), msg);

    // First claim should succeed
    let claim_res = execute_claim(&mut contract, "user1".to_string(), mock_time(), &balances)
        .unwrap();

    assert_eq!(claim_res.attributes.len(), 3);
    assert_eq!(claim_res.attributes[0].key, "action");
    assert_eq!(claim_res.attributes[0].value, "claim");
    assert_eq!(claim_res.attributes[1].key, "recipient");
    assert_eq!(claim_res.attributes[1].value, "user1");
    assert!(claim_res.messages.len() > 0);

    // Verify the native send instruction was created
    match &claim_res.messages[0] {
        TransferMsg::Send { to_address, amount, denom } => {
            assert_eq!(to_address, "user1");
            assert_eq!(*amount, DEFAULT_NATIVE_AMOUNT);
            assert_eq!(denom, NATIVE_DENOM);
        }
        other => panic!("Unexpected message: {:?}", other),
    }

    // Second claim should fail due to rate limiting
    let err = execute_claim(&mut contract, "user1".to_string(), mock_time(), &balances)
        .unwrap_err();
    assert!(err.message().contains("Rate limit exceeded"));
}

#[test]
fn test_execute_claim_cw20() {
    let mut contract = FaucetContract::new();

    let msg = InstantiateMsg {
        admin: None,
        tokens: vec![TokenConfig {
            denom: Denom::Cw20("token_contract".to_string()),
            amount: DEFAULT_CW20_AMOUNT,
        }],
        rate_limit_seconds: None,
    };
    instantiate(&mut contract, "creator".to_string(), msg);

    // The issuing contract reports a balance of 100_000_000 for the faucet
    let balances = vec![100_000_000u128];

    // First claim should succeed
    let claim_res = execute_claim(&mut contract, "user1".to_string(), mock_time(), &balances)
        .unwrap();

    assert_eq!(claim_res.attributes.len(), 3);
    assert_eq!(claim_res.attributes[0].key, "action");
    assert_eq!(claim_res.attributes[0].value, "claim");
    assert_eq!(claim_res.attributes[1].key, "recipient");
    assert_eq!(claim_res.attributes[1].value, "user1");
    assert!(claim_res.messages.len() > 0);

    // Verify the execute instruction carries a real cw20 transfer message
    match &claim_res.messages[0] {
        TransferMsg::Execute { contract_addr, msg } => {
            assert_eq!(contract_addr, "token_contract");
            let expected_msg = cw20::Cw20ExecuteMsg::Transfer {
                recipient: "user1".to_string(),
                amount: cosmwasm_std::Uint128::new(DEFAULT_CW20_AMOUNT),
            };
            let actual_msg: cw20::Cw20ExecuteMsg = cosmwasm_std::from_json(msg).unwrap();
            assert_eq!(actual_msg, expected_msg);
        }
        other => panic!("Unexpected message: {:?}", other),
    }

    // Second claim should fail due to rate limiting
    let err = execute_claim(&mut contract, "user1".to_string(), mock_time(), &balances)
        .unwrap_err();
    assert!(err.message().contains("Rate limit exceeded"));
}

#[test]
fn test_update_token_config_success() {
    let mut contract = FaucetContract::new();
    let init_msg = InstantiateMsg {
        admin: Some("admin".to_string()),
        tokens: vec![
            TokenConfig {
                denom: Denom::Native(NATIVE_DENOM.to_string()),
                amount: DEFAULT_NATIVE_AMOUNT,
            },
            TokenConfig {
                denom: Denom::Cw20("old_token_contract".to_string()),
                amount: DEFAULT_CW20_AMOUNT,
            },
        ],
        rate_limit_seconds: Some(DEFAULT_RATE_LIMIT),
    };
    instantiate(&mut contract, "creator".to_string(), init_msg);

    let new_token_config = TokenConfig {
        denom: Denom::Cw20("new_token_contract".to_string()),
        amount: 200_000_000,
    };

    let res = execute_update_token_config(
        &mut contract,
        "admin".to_string(),
        1,
        new_token_config.clone(),
    )
    .unwrap();

    // Verify the response
    assert_eq!(res.attributes.len(), 4);
    assert_eq!(res.attributes[0].key, "action");
    assert_eq!(res.attributes[0].value, "update_token_config");
    assert_eq!(res.attributes[1].key, "token_index");
    assert_eq!(res.attributes[1].value, "1");
    assert_eq!(res.attributes[2].key, "new_denom");
    assert_eq!(res.attributes[2].value, format!("{:?}", new_token_config.denom));
    assert_eq!(res.attributes[3].key, "new_amount");
    assert_eq!(res.attributes[3].value, new_token_config.amount.to_string());

    // Verify state
    let state = contract.state.as_ref().unwrap();
    assert_eq!(state.tokens[1], new_token_config);
}

#[test]
fn test_update_token_config_unauthorized() {
    let mut contract = FaucetContract::new();
    let init_msg = InstantiateMsg {
        admin: Some("admin".to_string()),
        tokens: vec![
            TokenConfig {
                denom: Denom::Native(NATIVE_DENOM.to_string()),
                amount: DEFAULT_NATIVE_AMOUNT,
            },
            TokenConfig {
                denom: Denom::Cw20("old_token_contract".to_string()),
                amount: DEFAULT_CW20_AMOUNT,
            },
        ],
        rate_limit_seconds: Some(DEFAULT_RATE_LIMIT),
    };
    instantiate(&mut contract, "creator".to_string(), init_msg);

    let new_token_config = TokenConfig {
        denom: Denom::Cw20("new_token_contract".to_string()),
        amount: 200_000_000,
    };

    let err = execute_update_token_config(&mut contract, "user".to_string(), 1, new_token_config)
        .unwrap_err();

    assert_eq!(err, FaucetError::Unauthorized);
    assert_eq!(err.message(), "Unauthorized");
}

#[test]
fn test_update_token_config_invalid_index() {
    let mut contract = FaucetContract::new();
    let init_msg = InstantiateMsg {
        admin: Some("admin".to_string()),
        tokens: vec![
            TokenConfig {
                denom: Denom::Native(NATIVE_DENOM.to_string()),
                amount: DEFAULT_NATIVE_AMOUNT,
            },
            TokenConfig {
                denom: Denom::Cw20("old_token_contract".to_string()),
                amount: DEFAULT_CW20_AMOUNT,
            },
        ],
        rate_limit_seconds: Some(DEFAULT_RATE_LIMIT),
    };
    instantiate(&mut contract, "creator".to_string(), init_msg);

    let new_token_config = TokenConfig {
        denom: Denom::Cw20("new_token_contract".to_string()),
        amount: 200_000_000,
    };

    let err = execute_update_token_config(&mut contract, "admin".to_string(), 5, new_token_config)
        .unwrap_err();

    assert_eq!(err, FaucetError::InvalidIndex);
    assert_eq!(err.message(), "Invalid token index");
}

#[test]
fn test_update_rate_limit_success() {
    let mut contract = FaucetContract::new();
    let init_msg = default_instantiate_msg();
    instantiate(&mut contract, "creator".to_string(), init_msg);

    let new_rate_limit = 3600; // 1 hour
    let res = execute_update_rate_limit(&mut contract, "admin".to_string(), new_rate_limit)
        .unwrap();

    // Verify the response
    assert_eq!(res.attributes.len(), 2);
    assert_eq!(res.attributes[0].key, "action");
    assert_eq!(res.attributes[0].value, "update_rate_limit");
    assert_eq!(res.attributes[1].key, "seconds");
    assert_eq!(res.attributes[1].value, new_rate_limit.to_string());

    // Verify state
    assert_eq!(contract.state.as_ref().unwrap().rate_limit_seconds, new_rate_limit);
}

#[test]
fn test_update_rate_limit_unauthorized() {
    let mut contract = FaucetContract::new();
    let init_msg = default_instantiate_msg();
    instantiate(&mut contract, "creator".to_string(), init_msg);

    let err = execute_update_rate_limit(&mut contract, "user".to_string(), 3600).unwrap_err();

    assert_eq!(err, FaucetError::Unauthorized);
    assert_eq!(err.message(), "Unauthorized");
}

#[test]
fn test_set_admin_success() {
    let mut contract = FaucetContract::new();
    let init_msg = InstantiateMsg {
        admin: Some("current_admin".to_string()),
        tokens: default_instantiate_msg().tokens,
        rate_limit_seconds: Some(DEFAULT_RATE_LIMIT),
    };
    instantiate(&mut contract, "creator".to_string(), init_msg);

    let new_admin = "new_admin".to_string();
    let res = execute_set_admin(&mut contract, "current_admin".to_string(), new_admin.clone())
        .unwrap();

    // Verify the response
    assert_eq!(res.attributes.len(), 2);
    assert_eq!(res.attributes[0].key, "action");
    assert_eq!(res.attributes[0].value, "set_admin");
    assert_eq!(res.attributes[1].key, "admin");
    assert_eq!(res.attributes[1].value, new_admin);

    // Verify state
    assert_eq!(contract.state.as_ref().unwrap().admin, "new_admin");
}

#[test]
fn test_set_admin_unauthorized() {
    let mut contract = FaucetContract::new();
    let init_msg = InstantiateMsg {
        admin: Some("current_admin".to_string()),
        tokens: default_instantiate_msg().tokens,
        rate_limit_seconds: Some(DEFAULT_RATE_LIMIT),
    };
    instantiate(&mut contract, "creator".to_string(), init_msg);

    let err = execute_set_admin(&mut contract, "user".to_string(), "new_admin".to_string())
        .unwrap_err();

    assert_eq!(err, FaucetError::Unauthorized);
    assert_eq!(err.message(), "Unauthorized");
}

#[test]
fn test_query_token_configs() {
    let mut contract = FaucetContract::new();
    let init_msg = InstantiateMsg {
        admin: Some("admin".to_string()),
        tokens: vec![
            TokenConfig {
                denom: Denom::Native(NATIVE_DENOM.to_string()),
                amount: DEFAULT_NATIVE_AMOUNT,
            },
            TokenConfig {
                denom: Denom::Cw20("token_contract".to_string()),
                amount: DEFAULT_CW20_AMOUNT,
            },
        ],
        rate_limit_seconds: Some(DEFAULT_RATE_LIMIT),
    };
    instantiate(&mut contract, "creator".to_string(), init_msg);

    let res = query_token_configs(&contract).unwrap();

    // Verify the response
    assert_eq!(res.tokens.len(), 2);
    assert_eq!(res.tokens[0].denom, Denom::Native(NATIVE_DENOM.to_string()));
    assert_eq!(res.tokens[0].amount, DEFAULT_NATIVE_AMOUNT);
    assert_eq!(res.tokens[1].denom, Denom::Cw20("token_contract".to_string()));
    assert_eq!(res.tokens[1].amount, DEFAULT_CW20_AMOUNT);
}

#[test]
fn test_query_rate_limit() {
    let mut contract = FaucetContract::new();
    instantiate(&mut contract, "creator".to_string(), default_instantiate_msg());

    let res = query_rate_limit(&contract).unwrap();

    assert_eq!(res.rate_limit_seconds, DEFAULT_RATE_LIMIT);
}

#[test]
fn test_query_user_info_existing_user() {
    let mut contract = FaucetContract::new();
    instantiate(&mut contract, "creator".to_string(), default_instantiate_msg());

    // Set user info
    let user_info = UserInfo { last_claim_time: mock_time() };
    contract.claims.save(&"user1".to_string(), user_info);

    let res = query_user_info(&contract, &"user1".to_string());

    assert_eq!(res.user_info, Some(user_info));
}

#[test]
fn test_query_user_info_nonexistent_user() {
    let mut contract = FaucetContract::new();
    instantiate(&mut contract, "creator".to_string(), default_instantiate_msg());

    let res = query_user_info(&contract, &"nonexistent_user".to_string());

    assert_eq!(res.user_info, None);
}

#[test]
fn test_query_admin() {
    let mut contract = FaucetContract::new();
    instantiate(&mut contract, "creator".to_string(), default_instantiate_msg());

    let res = query_admin(&contract).unwrap();

    assert_eq!(res.admin, "admin".to_string());
}

#[test]
fn test_query_balance() {
    let mut contract = FaucetContract::new();
    let init_msg = InstantiateMsg {
        admin: Some("admin".to_string()),
        tokens: vec![
            TokenConfig {
                denom: Denom::Native(NATIVE_DENOM.to_string()),
                amount: DEFAULT_NATIVE_AMOUNT,
            },
            TokenConfig {
                denom: Denom::Cw20("token_contract".to_string()),
                amount: DEFAULT_CW20_AMOUNT,
            },
        ],
        rate_limit_seconds: Some(DEFAULT_RATE_LIMIT),
    };
    instantiate(&mut contract, "creator".to_string(), init_msg);

    // Live balances fetched by the host: native 100_000, cw20 100_000_000
    let balances = vec![100_000u128, 100_000_000u128];
    let res = query_balance(&contract, &balances).unwrap();

    assert_eq!(res.balances.len(), 2);

    // Verify native balance
    match &res.balances[0] {
        BalanceEntry::Native { denom, amount } => {
            assert_eq!(denom, NATIVE_DENOM);
            assert_eq!(*amount, 100_000);
        }
        other => panic!("Expected native balance, got {:?}", other),
    }

    // Verify cw20 balance
    match &res.balances[1] {
        BalanceEntry::Cw20 { address, amount } => {
            assert_eq!(address, "token_contract");
            assert_eq!(*amount, 100_000_000);
        }
        other => panic!("Expected cw20 balance, got {:?}", other),
    }
}

#[test]
fn test_query_can_user_claim_first_time_user() {
    let mut contract = FaucetContract::new();
    instantiate(&mut contract, "creator".to_string(), default_instantiate_msg());

    let res = query_can_user_claim(&contract, &"user1".to_string(), mock_time()).unwrap();

    assert!(res.can_claim);
    assert_eq!(res.seconds_until_next_claim, 0);
}

#[test]
fn test_query_can_user_claim_within_rate_limit() {
    let mut contract = FaucetContract::new();
    instantiate(&mut contract, "creator".to_string(), default_instantiate_msg());

    // Set user info with a recent claim
    contract.claims.save(&"user1".to_string(), UserInfo { last_claim_time: mock_time() });

    let res = query_can_user_claim(&contract, &"user1".to_string(), mock_time()).unwrap();

    assert!(!res.can_claim);
    assert!(res.seconds_until_next_claim > 0);
}

#[test]
fn test_query_can_user_claim_after_rate_limit() {
    let mut contract = FaucetContract::new();
    instantiate(&mut contract, "creator".to_string(), default_instantiate_msg());

    // Set user info with an old claim
    let old_claim_time = mock_time() - DEFAULT_RATE_LIMIT - 1;
    contract.claims.save(&"user1".to_string(), UserInfo { last_claim_time: old_claim_time });

    // Query claim status after the rate limit period has passed
    let now = mock_time() + DEFAULT_RATE_LIMIT + 1;
    let res = query_can_user_claim(&contract, &"user1".to_string(), now).unwrap();

    assert!(res.can_claim);
    assert_eq!(res.seconds_until_next_claim, 0);
}
