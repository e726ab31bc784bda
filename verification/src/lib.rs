//! Verified core of a family of token-migration contracts.
//!
//! The centrepiece is a paginated, permissionless migration engine that walks
//! a balance ledger in bounded batches, emits one issuance instruction per
//! account, and keeps an aggregate supply counter consistent with every batch.
//! Around it stand the one-time configuration gate, the account enumerator,
//! and a set of smaller redeem/convert handlers plus the issuance-authority
//! middleware they talk to.
//!
//! Persistence and message transport are the host's business: every operation
//! here takes the contract state as an explicit value and returns plain
//! results, so the whole decision logic is verified.

pub mod account;
pub mod bindings;
pub mod coin;
pub mod cw20_base;
pub mod cw20_migrate;
pub mod cw20_types;
pub mod denom;
pub mod error;
pub mod laws;
pub mod migrate;
pub mod model;
pub mod native_migrate;
pub mod order;
pub mod text;
pub mod tf_example;
pub mod tokenfactory_core;
pub mod tokenfactory_types;
