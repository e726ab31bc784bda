//! The issuance-authority middleware: instantiation, minting, burning and
//! administration.

use tokenfactory_contracts::bindings::TokenFactoryMsg;
use tokenfactory_contracts::coin::Coin;
use tokenfactory_contracts::error::ContractError;
use tokenfactory_contracts::tokenfactory_core::{
    execute, execute_burn, execute_mint, execute_transfer_admin, instantiate, is_contract_manager,
    is_whitelisted, mint_factory_token_messages, pretty_denoms_output, query_config, Config,
    CoreMsg, ExecuteMsg, InitialBalance, InstantiateMsg, NewDenom,
};

fn coin(denom: &str, amount: u128) -> Coin {
    Coin { denom: denom.to_string(), amount }
}

fn base_config() -> Config {
    Config {
        manager: "juno1manager".to_string(),
        allowed_mint_addresses: vec!["juno1minter".to_string()],
        denoms: vec!["factory/juno1core/utoken".to_string()],
    }
}

#[test]
fn instantiate_creates_denoms_and_initial_mints() {
    let msg = InstantiateMsg {
        manager: None,
        allowed_mint_addresses: vec!["juno1minter".to_string()],
        existing_denoms: Some(vec!["factory/juno1core/old".to_string()]),
        new_denoms: Some(vec![NewDenom {
            name: "Test Token".to_string(),
            description: Some("example".to_string()),
            symbol: "TEST".to_string(),
            decimals: 6,
            initial_balances: Some(vec![InitialBalance {
                address: "juno1holder".to_string(),
                amount: 12,
            }]),
        }]),
    };
    let out = instantiate(&"juno1core".to_string(), &"juno1sender".to_string(), msg).unwrap();
    assert_eq!(out.config.manager, "juno1sender");
    assert_eq!(
        out.config.denoms,
        vec![
            "factory/juno1core/old".to_string(),
            "factory/juno1core/test".to_string()
        ]
    );
    assert_eq!(out.denom_msgs.len(), 1);
    match &out.denom_msgs[0] {
        TokenFactoryMsg::CreateDenom { subdenom, metadata } => {
            assert_eq!(subdenom, "test");
            let md = metadata.as_ref().unwrap();
            assert_eq!(md.name.as_deref(), Some("Test Token"));
            assert_eq!(md.base.as_deref(), Some("factory/juno1core/test"));
            assert_eq!(md.display.as_deref(), Some("TEST"));
            assert_eq!(md.denom_units.len(), 2);
            assert_eq!(md.denom_units[0].denom, "factory/juno1core/test");
            assert_eq!(md.denom_units[0].exponent, 0);
            assert_eq!(md.denom_units[1].denom, "TEST");
            assert_eq!(md.denom_units[1].exponent, 6);
        }
        other => panic!("unexpected message: {:?}", other),
    }
    assert_eq!(out.mint_msgs.len(), 1);
    match &out.mint_msgs[0] {
        TokenFactoryMsg::MintTokens { denom, amount, mint_to_address } => {
            assert_eq!(denom, "factory/juno1core/test");
            assert_eq!(*amount, 12);
            assert_eq!(mint_to_address, "juno1holder");
        }
        other => panic!("unexpected message: {:?}", other),
    }
}

#[test]
fn instantiate_rejects_unprefixed_existing_denom() {
    let msg = InstantiateMsg {
        manager: Some("juno1manager".to_string()),
        allowed_mint_addresses: vec![],
        existing_denoms: Some(vec!["ujuno".to_string()]),
        new_denoms: None,
    };
    match instantiate(&"juno1core".to_string(), &"juno1sender".to_string(), msg).unwrap_err() {
        ContractError::InvalidDenom { denom, message } => {
            assert_eq!(denom, "ujuno");
            assert_eq!(message, "Denom must start with 'factory/'");
        }
        other => panic!("unexpected error: {:?}", other),
    }
}

#[test]
fn instantiate_rejects_bad_initial_balance_address() {
    let msg = InstantiateMsg {
        manager: None,
        allowed_mint_addresses: vec![],
        existing_denoms: None,
        new_denoms: Some(vec![NewDenom {
            name: "Test Token".to_string(),
            description: None,
            symbol: "TEST".to_string(),
            decimals: 6,
            initial_balances: Some(vec![InitialBalance {
                address: "NOT VALID".to_string(),
                amount: 1,
            }]),
        }]),
    };
    let r = instantiate(&"juno1core".to_string(), &"juno1sender".to_string(), msg);
    assert_eq!(r.unwrap_err(), ContractError::InvalidAddress);
}

#[test]
fn instantiate_requires_some_denom() {
    let msg = InstantiateMsg {
        manager: None,
        allowed_mint_addresses: vec![],
        existing_denoms: None,
        new_denoms: None,
    };
    let r = instantiate(&"juno1core".to_string(), &"juno1sender".to_string(), msg);
    assert_eq!(r.unwrap_err(), ContractError::NoDenomsProvided);
}

#[test]
fn whitelist_and_manager_checks() {
    let config = base_config();
    assert!(is_whitelisted(&config, &"juno1minter".to_string()).is_ok());
    assert_eq!(
        is_whitelisted(&config, &"juno1other".to_string()).unwrap_err(),
        ContractError::Unauthorized
    );
    assert!(is_contract_manager(&config, &"juno1manager".to_string()).is_ok());
    assert_eq!(
        is_contract_manager(&config, &"juno1minter".to_string()).unwrap_err(),
        ContractError::Unauthorized
    );
}

#[test]
fn mint_needs_whitelist_and_denoms() {
    let config = base_config();
    let denoms = vec![coin("factory/juno1core/utoken", 5)];
    let msgs =
        execute_mint(&config, &"juno1minter".to_string(), &"juno1dest".to_string(), &denoms)
            .unwrap();
    assert_eq!(msgs.len(), 1);
    match &msgs[0] {
        TokenFactoryMsg::MintTokens { denom, amount, mint_to_address } => {
            assert_eq!(denom, "factory/juno1core/utoken");
            assert_eq!(*amount, 5);
            assert_eq!(mint_to_address, "juno1dest");
        }
        other => panic!("unexpected message: {:?}", other),
    }
    assert_eq!(
        execute_mint(&config, &"juno1evil".to_string(), &"juno1dest".to_string(), &denoms)
            .unwrap_err(),
        ContractError::Unauthorized
    );
    assert_eq!(
        mint_factory_token_messages(&"juno1dest".to_string(), &vec![]).unwrap_err(),
        ContractError::NoDenomsProvided
    );
}

#[test]
fn burn_partitions_factory_coins_from_the_rest() {
    let config = base_config();
    let funds = vec![
        coin("factory/juno1core/utoken", 10),
        coin("ujuno", 3),
        coin("factory/juno1core/utoken", 2),
    ];
    let msgs = execute_burn(
        &config,
        &"juno1thiscontract".to_string(),
        &"juno1caller".to_string(),
        &funds,
    )
    .unwrap();
    assert_eq!(msgs.len(), 3);
    match &msgs[0] {
        CoreMsg::Send { to_address, amount } => {
            assert_eq!(to_address, "juno1caller");
            assert_eq!(amount.len(), 1);
            assert_eq!(amount[0].denom, "ujuno");
            assert_eq!(amount[0].amount, 3);
        }
        other => panic!("unexpected message: {:?}", other),
    }
    match &msgs[1] {
        CoreMsg::Token(TokenFactoryMsg::BurnTokens { denom, amount, burn_from_address }) => {
            assert_eq!(denom, "factory/juno1core/utoken");
            assert_eq!(*amount, 10);
            assert_eq!(burn_from_address, "juno1thiscontract");
        }
        other => panic!("unexpected message: {:?}", other),
    }
    assert_eq!(
        execute_burn(
            &config,
            &"juno1thiscontract".to_string(),
            &"juno1caller".to_string(),
            &vec![]
        )
        .unwrap_err(),
        ContractError::InvalidFunds
    );
}

#[test]
fn transfer_admin_hands_over_and_forgets_the_denom() {
    let mut config = base_config();
    let msg = execute_transfer_admin(
        &mut config,
        &"juno1manager".to_string(),
        "factory/juno1core/utoken".to_string(),
        "juno1newadmin".to_string(),
    )
    .unwrap();
    match msg {
        TokenFactoryMsg::ChangeAdmin { denom, new_admin_address } => {
            assert_eq!(denom, "factory/juno1core/utoken");
            assert_eq!(new_admin_address, "juno1newadmin");
        }
        other => panic!("unexpected message: {:?}", other),
    }
    assert!(config.denoms.is_empty());

    let mut config2 = base_config();
    assert_eq!(
        execute_transfer_admin(
            &mut config2,
            &"juno1evil".to_string(),
            "factory/juno1core/utoken".to_string(),
            "juno1newadmin".to_string(),
        )
        .unwrap_err(),
        ContractError::Unauthorized
    );
    assert_eq!(config2.denoms.len(), 1);
}

#[test]
fn burn_from_requires_the_denom_in_balance() {
    let mut config = base_config();
    let balances = vec![coin("factory/juno1core/utoken", 50)];
    let msgs = execute(
        &mut config,
        &"juno1thiscontract".to_string(),
        &"juno1manager".to_string(),
        &vec![],
        ExecuteMsg::BurnFrom {
            from: "juno1holder".to_string(),
            denom: coin("factory/juno1core/utoken", 20),
        },
        &balances,
    )
    .unwrap();
    assert_eq!(msgs.len(), 1);
    match &msgs[0] {
        CoreMsg::Token(TokenFactoryMsg::BurnTokens { denom, amount, burn_from_address }) => {
            assert_eq!(denom, "factory/juno1core/utoken");
            assert_eq!(*amount, 20);
            assert_eq!(burn_from_address, "juno1holder");
        }
        other => panic!("unexpected message: {:?}", other),
    }

    let r = execute(
        &mut config,
        &"juno1thiscontract".to_string(),
        &"juno1manager".to_string(),
        &vec![],
        ExecuteMsg::BurnFrom {
            from: "juno1holder".to_string(),
            denom: coin("factory/juno1core/other", 20),
        },
        &balances,
    );
    match r.unwrap_err() {
        ContractError::InvalidDenom { denom, message } => {
            assert_eq!(denom, "factory/juno1core/other");
            assert_eq!(message, "Denom not found in balance");
        }
        other => panic!("unexpected error: {:?}", other),
    }
}

#[test]
fn whitelist_updates_deduplicate_and_remove() {
    let mut config = base_config();
    let env = "juno1thiscontract".to_string();
    let manager = "juno1manager".to_string();
    let none: Vec<Coin> = vec![];

    let r = execute(
        &mut config,
        &env,
        &manager,
        &none,
        ExecuteMsg::AddWhitelist {
            addresses: vec![
                "juno1minter".to_string(),
                "juno1newguy".to_string(),
                "juno1newguy".to_string(),
            ],
        },
        &none,
    );
    assert!(r.unwrap().is_empty());
    assert_eq!(
        config.allowed_mint_addresses,
        vec!["juno1minter".to_string(), "juno1newguy".to_string()]
    );

    execute(
        &mut config,
        &env,
        &manager,
        &none,
        ExecuteMsg::RemoveWhitelist { addresses: vec!["juno1minter".to_string()] },
        &none,
    )
    .unwrap();
    assert_eq!(config.allowed_mint_addresses, vec!["juno1newguy".to_string()]);

    execute(
        &mut config,
        &env,
        &manager,
        &none,
        ExecuteMsg::AddDenom { denoms: vec!["factory/juno1core/second".to_string()] },
        &none,
    )
    .unwrap();
    assert_eq!(config.denoms.len(), 2);

    execute(
        &mut config,
        &env,
        &manager,
        &none,
        ExecuteMsg::RemoveDenom { denoms: vec!["factory/juno1core/utoken".to_string()] },
        &none,
    )
    .unwrap();
    assert_eq!(config.denoms, vec!["factory/juno1core/second".to_string()]);

    let r = execute(
        &mut config,
        &env,
        &"juno1evil".to_string(),
        &none,
        ExecuteMsg::AddWhitelist { addresses: vec!["juno1evil".to_string()] },
        &none,
    );
    assert_eq!(r.unwrap_err(), ContractError::Unauthorized);
}

#[test]
fn pretty_output_renders_amount_colon_denom() {
    let denoms = vec![coin("factory/juno1xxx/test", 1000000), coin("factory/juno1xxx/test2", 5)];
    assert_eq!(
        pretty_denoms_output(&denoms),
        "1000000:factory/juno1xxx/test, 5:factory/juno1xxx/test2"
    );
    assert_eq!(pretty_denoms_output(&vec![]), "");
    assert_eq!(pretty_denoms_output(&vec![coin("ujuno", 0)]), "0:ujuno");
}

#[test]
fn config_query_copies_the_configuration() {
    let config = base_config();
    let out = query_config(&config);
    assert_eq!(out.manager, config.manager);
    assert_eq!(out.allowed_mint_addresses, config.allowed_mint_addresses);
    assert_eq!(out.denoms, config.denoms);
}
