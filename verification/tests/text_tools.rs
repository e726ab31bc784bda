//! The verified text utilities and identifier checks.

use tokenfactory_contracts::account::check_account_id;
use tokenfactory_contracts::denom::check_factory_prefix;
use tokenfactory_contracts::order::str_lt;
use tokenfactory_contracts::text::{ascii_lowercase, contains_string, u128_to_string};

#[test]
fn account_identifier_syntax() {
    assert!(check_account_id("juno1corecontract"));
    assert!(check_account_id("abc"));
    assert!(!check_account_id("ab"));
    assert!(!check_account_id("Juno1core"));
    assert!(!check_account_id("juno core"));
    assert!(!check_account_id(""));
    let long = "a".repeat(90);
    assert!(check_account_id(&long));
    let too_long = "a".repeat(91);
    assert!(!check_account_id(&too_long));
}

#[test]
fn factory_prefix_syntax() {
    assert!(check_factory_prefix("factory/juno1core/utoken"));
    assert!(check_factory_prefix("factory/"));
    assert!(!check_factory_prefix("factory"));
    assert!(!check_factory_prefix("usdc"));
    assert!(!check_factory_prefix(""));
    assert!(!check_factory_prefix("Factory/abc"));
}

#[test]
fn lexicographic_order_on_identifiers() {
    assert!(str_lt("alice", "bob"));
    assert!(!str_lt("bob", "alice"));
    assert!(str_lt("abc", "abcd"));
    assert!(!str_lt("abcd", "abc"));
    assert!(!str_lt("same", "same"));
    assert!(str_lt("", "a"));
    assert!(str_lt("abc1", "abc2"));
}

#[test]
fn lowercase_maps_ascii_letters_only() {
    assert_eq!(ascii_lowercase("TEST"), "test");
    assert_eq!(ascii_lowercase("Juno-Token2"), "juno-token2");
    assert_eq!(ascii_lowercase("already lower"), "already lower");
    assert_eq!(ascii_lowercase(""), "");
}

#[test]
fn decimal_rendering() {
    assert_eq!(u128_to_string(0), "0");
    assert_eq!(u128_to_string(9), "9");
    assert_eq!(u128_to_string(10), "10");
    assert_eq!(u128_to_string(1000000), "1000000");
    assert_eq!(u128_to_string(12345678901234567890), "12345678901234567890");
    assert_eq!(
        u128_to_string(u128::MAX),
        "340282366920938463463374607431768211455"
    );
}

#[test]
fn string_membership() {
    let v = vec!["aaa".to_string(), "bbb".to_string()];
    assert!(contains_string(&v, &"aaa".to_string()));
    assert!(!contains_string(&v, &"ccc".to_string()));
    assert!(!contains_string(&vec![], &"aaa".to_string()));
}
