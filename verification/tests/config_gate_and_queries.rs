//! The configuration gate, instantiation validation and the read-only
//! queries of the migrating token contract.

use tokenfactory_contracts::cw20_base::{
    instantiate, AccountBalance, AllowanceEntry, Cw20State, DownloadLogoResponse, EmbeddedLogo,
    InstantiateMsg, Logo, LogoInfo, MarketingInfoResponse, MigrateMsg, MinterData, TokenInfo,
};
use tokenfactory_contracts::error::ContractError;

fn base_state() -> Cw20State {
    Cw20State {
        token_info: TokenInfo {
            name: "Legacy Token".to_string(),
            symbol: "LEG".to_string(),
            decimals: 6,
            total_supply: 42,
            mint: Some(MinterData { minter: "juno1minter".to_string(), cap: Some(1000) }),
        },
        migration: None,
        balances: vec![AccountBalance { address: "aaa".to_string(), amount: 42 }],
        allowances: vec![AllowanceEntry {
            owner: "aaa".to_string(),
            spender: "bbb".to_string(),
            allowance: 5,
        }],
        marketing_info: None,
        logo: None,
    }
}

#[test]
fn configure_with_unprefixed_denom_fails_and_persists_nothing() {
    let mut state = base_state();
    let r = state.migrate(MigrateMsg {
        tf_core_address: "juno1corecontract".to_string(),
        tf_denom: "usdc".to_string(),
        burn_cw20_balances: true,
    });
    match r.unwrap_err() {
        ContractError::InvalidDenom { denom, message } => {
            assert_eq!(denom, "usdc");
            assert_eq!(message, "Denom must start with 'factory/'");
        }
        other => panic!("unexpected error: {:?}", other),
    }
    assert!(state.migration.is_none());
    assert_eq!(state.allowances.len(), 1);
}

#[test]
fn configure_with_bad_authority_fails() {
    let mut state = base_state();
    let r = state.migrate(MigrateMsg {
        tf_core_address: "NOT an address".to_string(),
        tf_denom: "factory/juno1corecontract/uleg".to_string(),
        burn_cw20_balances: false,
    });
    assert_eq!(r.unwrap_err(), ContractError::InvalidAddress);
    assert!(state.migration.is_none());
}

#[test]
fn configure_persists_cursor_state_and_purges_allowances() {
    let mut state = base_state();
    let r = state.migrate(MigrateMsg {
        tf_core_address: "juno1corecontract".to_string(),
        tf_denom: "factory/juno1corecontract/uleg".to_string(),
        burn_cw20_balances: true,
    });
    assert!(r.is_ok());
    let cfg = state.migration.as_ref().unwrap();
    assert_eq!(cfg.tf_core_address, "juno1corecontract");
    assert_eq!(cfg.tf_denom, "factory/juno1corecontract/uleg");
    assert_eq!(cfg.start_after_addr, None);
    assert!(cfg.burn_cw20_balances);
    assert!(state.allowances.is_empty());
    assert_eq!(state.balances.len(), 1);
    assert_eq!(state.token_info.total_supply, 42);
}

#[test]
fn direct_instantiation_is_refused() {
    let msg = InstantiateMsg {
        name: "New Token".to_string(),
        symbol: "NEW".to_string(),
        decimals: 6,
        initial_balances: vec![],
        mint: None,
        marketing: None,
    };
    assert_eq!(instantiate(msg).unwrap_err(), ContractError::CannotInstantiate);
}

fn plain_msg(name: &str, symbol: &str, decimals: u8) -> InstantiateMsg {
    InstantiateMsg {
        name: name.to_string(),
        symbol: symbol.to_string(),
        decimals,
        initial_balances: vec![],
        mint: None,
        marketing: None,
    }
}

#[test]
fn name_and_symbol_validation() {
    assert!(plain_msg("Good Name", "GOOD", 6).validate().is_ok());
    assert!(!plain_msg("ab", "GOOD", 6).has_valid_name());
    assert!(plain_msg("abc", "GOOD", 6).has_valid_name());
    assert!(!plain_msg("Good", "ab", 6).has_valid_symbol());
    assert!(!plain_msg("Good", "BAD1", 6).has_valid_symbol());
    assert!(plain_msg("Good", "GO-OD", 6).has_valid_symbol());
    match plain_msg("ab", "GOOD", 6).validate().unwrap_err() {
        ContractError::InvalidInput { message } => {
            assert_eq!(message, "Name is not in the expected format (3-50 UTF-8 bytes)");
        }
        other => panic!("unexpected error: {:?}", other),
    }
    match plain_msg("Good Name", "B@D", 6).validate().unwrap_err() {
        ContractError::InvalidInput { message } => {
            assert_eq!(message, "Ticker symbol is not in expected format [a-zA-Z-]{3,12}");
        }
        other => panic!("unexpected error: {:?}", other),
    }
    match plain_msg("Good Name", "GOOD", 19).validate().unwrap_err() {
        ContractError::InvalidInput { message } => {
            assert_eq!(message, "Decimals must not exceed 18");
        }
        other => panic!("unexpected error: {:?}", other),
    }
}

#[test]
fn caps_come_from_the_minter_data() {
    let mut msg = plain_msg("Good Name", "GOOD", 6);
    assert_eq!(msg.get_cap(), None);
    msg.mint = Some(tokenfactory_contracts::cw20_base::MinterResponse {
        minter: "juno1minter".to_string(),
        cap: Some(777),
    });
    assert_eq!(msg.get_cap(), Some(777));
    let state = base_state();
    assert_eq!(state.token_info.get_cap(), Some(1000));
}

#[test]
fn token_info_query_reports_the_counter() {
    let state = base_state();
    let info = state.query_token_info();
    assert_eq!(info.name, "Legacy Token");
    assert_eq!(info.symbol, "LEG");
    assert_eq!(info.decimals, 6);
    assert_eq!(info.total_supply, 42);
}

#[test]
fn minter_query_is_empty() {
    assert!(base_state().query_minter().is_none());
}

#[test]
fn download_logo_query() {
    let mut state = base_state();
    match state.query_download_logo().unwrap_err() {
        ContractError::NotFound { what } => assert_eq!(what, "logo"),
        other => panic!("unexpected error: {:?}", other),
    }

    state.logo = Some(Logo::Embedded(EmbeddedLogo::Svg(vec![1, 2, 3])));
    let DownloadLogoResponse { mime_type, data } = state.query_download_logo().unwrap();
    assert_eq!(mime_type, "image/svg+xml");
    assert_eq!(data, vec![1, 2, 3]);

    state.logo = Some(Logo::Embedded(EmbeddedLogo::Png(vec![9])));
    let png = state.query_download_logo().unwrap();
    assert_eq!(png.mime_type, "image/png");

    state.logo = Some(Logo::Url("https://example.invalid/logo.svg".to_string()));
    assert!(state.query_download_logo().is_err());
}

#[test]
fn marketing_info_query_defaults_to_empty() {
    let mut state = base_state();
    let empty = state.query_marketing_info();
    assert!(empty.project.is_none());
    assert!(empty.description.is_none());
    assert!(empty.marketing.is_none());
    assert!(empty.logo.is_none());

    state.marketing_info = Some(MarketingInfoResponse {
        project: Some("tokenfactory".to_string()),
        description: None,
        marketing: Some("juno1minter".to_string()),
        logo: Some(LogoInfo::Embedded),
    });
    let info = state.query_marketing_info();
    assert_eq!(info.project, Some("tokenfactory".to_string()));
    assert!(info.description.is_none());
    assert!(matches!(info.logo, Some(LogoInfo::Embedded)));
}
