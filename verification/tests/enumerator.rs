//! The account enumerator: stable order, strict-after cursor, clamped
//! page sizes.

use tokenfactory_contracts::cw20_base::{AccountBalance, Cw20State, TokenInfo};

fn state_with(accounts: &[&str]) -> Cw20State {
    Cw20State {
        token_info: TokenInfo {
            name: "Legacy Token".to_string(),
            symbol: "LEG".to_string(),
            decimals: 6,
            total_supply: 0,
            mint: None,
        },
        migration: None,
        balances: accounts
            .iter()
            .map(|a| AccountBalance { address: a.to_string(), amount: 1 })
            .collect(),
        allowances: vec![],
        marketing_info: None,
        logo: None,
    }
}

#[test]
fn first_page_and_strictly_after() {
    let state = state_with(&["alice", "bob", "carol", "dave"]);
    let all = state.query_all_accounts(None, None);
    assert_eq!(all.accounts, vec!["alice", "bob", "carol", "dave"]);

    let after_bob = state.query_all_accounts(Some("bob".to_string()), None);
    assert_eq!(after_bob.accounts, vec!["carol", "dave"]);

    // A cursor that is no ledger key still partitions the order correctly.
    let between = state.query_all_accounts(Some("bz".to_string()), None);
    assert_eq!(between.accounts, vec!["carol", "dave"]);
}

#[test]
fn limit_truncates_and_is_clamped() {
    let names: Vec<String> = (0..40).map(|i| format!("acct{:02}", i)).collect();
    let refs: Vec<&str> = names.iter().map(|s| s.as_str()).collect();
    let state = state_with(&refs);

    assert_eq!(state.query_all_accounts(None, Some(2)).accounts.len(), 2);
    assert_eq!(state.query_all_accounts(None, Some(0)).accounts.len(), 0);
    assert_eq!(state.query_all_accounts(None, None).accounts.len(), 30);
    assert_eq!(state.query_all_accounts(None, Some(100)).accounts.len(), 30);
}

#[test]
fn exhausted_ledger_yields_empty_page() {
    let state = state_with(&["alice", "bob"]);
    let page = state.query_all_accounts(Some("bob".to_string()), None);
    assert!(page.accounts.is_empty());
    let past_end = state.query_all_accounts(Some("zzz".to_string()), Some(5));
    assert!(past_end.accounts.is_empty());
}

#[test]
fn empty_ledger_yields_empty_page() {
    let state = state_with(&[]);
    assert!(state.query_all_accounts(None, None).accounts.is_empty());
}

#[test]
fn pagination_covers_everything_exactly_once() {
    let names: Vec<String> = (0..25).map(|i| format!("acct{:02}", i)).collect();
    let refs: Vec<&str> = names.iter().map(|s| s.as_str()).collect();
    let state = state_with(&refs);

    let mut cursor: Option<String> = None;
    let mut seen: Vec<String> = vec![];
    loop {
        let page = state.query_all_accounts(cursor.clone(), Some(7)).accounts;
        if page.is_empty() {
            break;
        }
        cursor = page.last().cloned();
        seen.extend(page);
    }
    assert_eq!(seen, names);
}
