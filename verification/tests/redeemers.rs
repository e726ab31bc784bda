//! The redeem and convert contracts, and the example middleware client.

use tokenfactory_contracts::coin::Coin;
use tokenfactory_contracts::cw20_types::Cw20ReceiveMsg;
use tokenfactory_contracts::error::ContractError;
use tokenfactory_contracts::tokenfactory_types::ExecuteMsg as TfExecuteMsg;
use tokenfactory_contracts::{cw20_migrate, migrate, native_migrate, tf_example};

fn coin(denom: &str, amount: u128) -> Coin {
    Coin { denom: denom.to_string(), amount }
}

fn receive(sender: &str, amount: u128) -> Cw20ReceiveMsg {
    Cw20ReceiveMsg { sender: sender.to_string(), amount, msg: vec![] }
}

#[test]
fn native_migrate_instantiate_validates() {
    let r = native_migrate::instantiate(native_migrate::InstantiateMsg {
        tf_denom: "ujuno".to_string(),
        burn_denom: "uold".to_string(),
        contract_minter_address: "juno1minter".to_string(),
    });
    match r.unwrap_err() {
        ContractError::InvalidDenom { denom, message } => {
            assert_eq!(denom, "ujuno");
            assert_eq!(message, "Denom must start with 'factory/'");
        }
        other => panic!("unexpected error: {:?}", other),
    }

    let r = native_migrate::instantiate(native_migrate::InstantiateMsg {
        tf_denom: "factory/juno1core/unew".to_string(),
        burn_denom: "uold".to_string(),
        contract_minter_address: "BAD".to_string(),
    });
    assert_eq!(r.unwrap_err(), ContractError::InvalidAddress);

    let st = native_migrate::instantiate(native_migrate::InstantiateMsg {
        tf_denom: "factory/juno1core/unew".to_string(),
        burn_denom: "uold".to_string(),
        contract_minter_address: "juno1minter".to_string(),
    })
    .unwrap();
    assert_eq!(st.tf_denom, "factory/juno1core/unew");
    assert_eq!(st.burn_denom, "uold");

    let cfg = native_migrate::query_config(&st);
    assert_eq!(cfg.contract_minter_address, "juno1minter");
    assert_eq!(cfg.tf_denom, "factory/juno1core/unew");
}

fn native_state() -> native_migrate::State {
    native_migrate::State {
        contract_minter_address: "juno1minter".to_string(),
        burn_denom: "uold".to_string(),
        tf_denom: "factory/juno1core/unew".to_string(),
    }
}

#[test]
fn native_convert_burns_and_mints_one_to_one() {
    let state = native_state();
    let funds = vec![coin("uold", 12345)];
    let res = native_migrate::execute(
        &state,
        &"juno1holder".to_string(),
        &funds,
        native_migrate::ExecuteMsg::Convert {},
    )
    .unwrap();
    assert_eq!(res.burn_funds.len(), 1);
    assert_eq!(res.burn_funds[0].denom, "uold");
    assert_eq!(res.minter_contract, "juno1minter");
    match res.mint {
        TfExecuteMsg::Mint { address, denom } => {
            assert_eq!(address, "juno1holder");
            assert_eq!(denom.len(), 1);
            assert_eq!(denom[0].denom, "factory/juno1core/unew");
            assert_eq!(denom[0].amount, 12345);
        }
        other => panic!("unexpected message: {:?}", other),
    }
}

#[test]
fn native_convert_rejects_bad_funds() {
    let state = native_state();
    let none: Vec<Coin> = vec![];
    assert_eq!(
        native_migrate::execute_convert(&state, &"juno1holder".to_string(), &none).unwrap_err(),
        ContractError::NoFundsSent
    );

    let two = vec![coin("uold", 1), coin("ujuno", 2)];
    match native_migrate::execute_convert(&state, &"juno1holder".to_string(), &two).unwrap_err() {
        ContractError::InvalidDenom { denom, message } => {
            assert_eq!(denom, "uoldujuno");
            assert_eq!(message, "Only one denom can be sent");
        }
        other => panic!("unexpected error: {:?}", other),
    }

    let wrong = vec![coin("ujuno", 1)];
    match native_migrate::execute_convert(&state, &"juno1holder".to_string(), &wrong).unwrap_err()
    {
        ContractError::InvalidDenom { denom, message } => {
            assert_eq!(denom, "ujuno");
            assert_eq!(message, "This is not the correct denom to get the factory denom");
        }
        other => panic!("unexpected error: {:?}", other),
    }
}

#[test]
fn migrate_instantiate_refuses_both_sources() {
    let r = migrate::instantiate(migrate::InstantiateMsg {
        contract_minter_address: "juno1minter".to_string(),
        cw20_token_address: Some("juno1cw20".to_string()),
        burn_denom: Some("uold".to_string()),
        tf_denom: "factory/juno1core/unew".to_string(),
    });
    match r.unwrap_err() {
        ContractError::InvalidDenom { denom, message } => {
            assert_eq!(denom, "factory/juno1core/unew");
            assert_eq!(message, "Cannot set both burn_denom & cw20_token_address");
        }
        other => panic!("unexpected error: {:?}", other),
    }

    let r = migrate::instantiate(migrate::InstantiateMsg {
        contract_minter_address: "juno1minter".to_string(),
        cw20_token_address: Some("BAD ADDRESS".to_string()),
        burn_denom: None,
        tf_denom: "factory/juno1core/unew".to_string(),
    });
    assert_eq!(r.unwrap_err(), ContractError::InvalidAddress);
}

fn migrate_cw20_state() -> migrate::State {
    migrate::State {
        contract_minter_address: "juno1minter".to_string(),
        cw20_token_address: Some("juno1cw20".to_string()),
        burn_denom: None,
        tf_denom: "factory/juno1core/unew".to_string(),
    }
}

#[test]
fn migrate_redeems_a_cw20_return() {
    let state = migrate_cw20_state();
    let res = migrate::execute(
        &state,
        &"juno1cw20".to_string(),
        &vec![],
        migrate::ExecuteMsg::Receive(receive("juno1holder", 77)),
    )
    .unwrap();
    match res.burn {
        migrate::RedeemMsg::Cw20Burn { contract_addr, amount } => {
            assert_eq!(contract_addr, "juno1cw20");
            assert_eq!(amount, 77);
        }
        other => panic!("unexpected burn: {:?}", other),
    }
    assert_eq!(res.minter_contract, "juno1minter");
    match res.mint {
        TfExecuteMsg::Mint { address, denom } => {
            assert_eq!(address, "juno1holder");
            assert_eq!(denom[0].amount, 77);
        }
        other => panic!("unexpected message: {:?}", other),
    }
}

#[test]
fn migrate_rejects_returns_from_the_wrong_contract() {
    let state = migrate_cw20_state();
    let r = migrate::execute(
        &state,
        &"juno1impostor".to_string(),
        &vec![],
        migrate::ExecuteMsg::Receive(receive("juno1holder", 77)),
    );
    assert_eq!(r.unwrap_err(), ContractError::InvalidCW20Address);
}

#[test]
fn migrate_converts_native_funds() {
    let state = migrate::State {
        contract_minter_address: "juno1minter".to_string(),
        cw20_token_address: None,
        burn_denom: Some("uold".to_string()),
        tf_denom: "factory/juno1core/unew".to_string(),
    };
    let res = migrate::execute(
        &state,
        &"juno1holder".to_string(),
        &vec![coin("uold", 9)],
        migrate::ExecuteMsg::Convert {},
    )
    .unwrap();
    match res.burn {
        migrate::RedeemMsg::BankBurn { amount } => {
            assert_eq!(amount.len(), 1);
            assert_eq!(amount[0].amount, 9);
        }
        other => panic!("unexpected burn: {:?}", other),
    }
    match res.mint {
        TfExecuteMsg::Mint { address, denom } => {
            assert_eq!(address, "juno1holder");
            assert_eq!(denom[0].amount, 9);
        }
        other => panic!("unexpected message: {:?}", other),
    }

    let cfg = migrate::query_config(&state);
    assert_eq!(cfg.burn_denom, Some("uold".to_string()));
    assert_eq!(cfg.cw20_token_address, None);
}

#[test]
fn cw20_migrate_full_flow() {
    let r = cw20_migrate::instantiate(cw20_migrate::InstantiateMsg {
        contract_minter_address: "juno1minter".to_string(),
        cw20_token_address: "juno1cw20".to_string(),
        tf_denom: "unew".to_string(),
    });
    assert!(matches!(r.unwrap_err(), ContractError::InvalidDenom { .. }));

    let state = cw20_migrate::instantiate(cw20_migrate::InstantiateMsg {
        contract_minter_address: "juno1minter".to_string(),
        cw20_token_address: "juno1cw20".to_string(),
        tf_denom: "factory/juno1core/unew".to_string(),
    })
    .unwrap();

    let res = cw20_migrate::execute(
        &state,
        &"juno1cw20".to_string(),
        cw20_migrate::ExecuteMsg::Receive(receive("juno1holder", 55)),
    )
    .unwrap();
    assert_eq!(res.burn_contract, "juno1cw20");
    assert_eq!(res.burn_amount, 55);
    assert_eq!(res.minter_contract, "juno1minter");
    match res.mint {
        TfExecuteMsg::Mint { address, denom } => {
            assert_eq!(address, "juno1holder");
            assert_eq!(denom[0].denom, "factory/juno1core/unew");
            assert_eq!(denom[0].amount, 55);
        }
        other => panic!("unexpected message: {:?}", other),
    }

    let r = cw20_migrate::execute_redeem_mint(
        &state,
        &"juno1impostor".to_string(),
        receive("juno1holder", 55),
    );
    assert_eq!(r.unwrap_err(), ContractError::InvalidCW20Address);

    let cfg = cw20_migrate::query_config(&state);
    assert_eq!(cfg.cw20_token_address, "juno1cw20");
}

#[test]
fn tf_example_resolves_the_middleware() {
    let config = tf_example::instantiate(tf_example::InstantiateMsg {
        core_factory_address: Some("juno1core".to_string()),
    })
    .unwrap();
    assert_eq!(config.core_address, Some("juno1core".to_string()));

    let res = tf_example::execute(
        &config,
        tf_example::ExecuteMsg::MintTokens {
            core_factory_address: None,
            denoms: vec![coin("factory/juno1core/unew", 3)],
            to_address: "juno1dest".to_string(),
        },
    )
    .unwrap();
    assert_eq!(res.core_contract, "juno1core");
    match res.mint {
        TfExecuteMsg::Mint { address, denom } => {
            assert_eq!(address, "juno1dest");
            assert_eq!(denom[0].amount, 3);
        }
        other => panic!("unexpected message: {:?}", other),
    }

    let override_res = tf_example::execute(
        &config,
        tf_example::ExecuteMsg::MintTokens {
            core_factory_address: Some("juno1other".to_string()),
            denoms: vec![],
            to_address: "juno1dest".to_string(),
        },
    )
    .unwrap();
    assert_eq!(override_res.core_contract, "juno1other");

    assert_eq!(
        tf_example::instantiate(tf_example::InstantiateMsg {
            core_factory_address: Some("BAD".to_string()),
        })
        .unwrap_err(),
        ContractError::InvalidAddress
    );
    let empty = tf_example::instantiate(tf_example::InstantiateMsg { core_factory_address: None })
        .unwrap();
    assert_eq!(tf_example::query_config(&empty).core_address, None);
}
