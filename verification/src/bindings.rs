//! The chain-level token-factory instructions the issuance middleware
//! emits.  These are plain values handed to the host for dispatch; the host
//! owns their wire encoding.

use vstd::prelude::*;

verus! {

/// One unit in which a denomination is displayed.
#[derive(Debug)]
pub struct DenomUnit {
    pub denom: String,
    pub exponent: u32,
    pub aliases: Vec<String>,
}

/// Bank metadata of a denomination.
#[derive(Debug)]
pub struct Metadata {
    pub name: Option<String>,
    pub description: Option<String>,
    pub denom_units: Vec<DenomUnit>,
    pub base: Option<String>,
    pub display: Option<String>,
    pub symbol: Option<String>,
}

/// An instruction to the chain's token-factory module.
#[derive(Debug)]
pub enum TokenFactoryMsg {
    /// Create `factory/<contract>/<subdenom>` with optional metadata.
    CreateDenom { subdenom: String, metadata: Option<Metadata> },
    /// Hand the admin rights over a denomination to another address.
    ChangeAdmin { denom: String, new_admin_address: String },
    /// Issue `amount` of `denom` to an address.
    MintTokens { denom: String, amount: u128, mint_to_address: String },
    /// Destroy `amount` of `denom` held by an address.
    BurnTokens { denom: String, amount: u128, burn_from_address: String },
    /// Move `amount` of `denom` between two addresses by admin authority.
    ForceTransfer { denom: String, amount: u128, from_address: String, to_address: String },
    /// Replace the bank metadata of a denomination.
    SetMetadata { denom: String, metadata: Metadata },
}

} // verus!
