//! The shared command set of the issuance-authority middleware, spoken by
//! every contract in this family that asks the middleware to act.

use vstd::prelude::*;
use crate::bindings::Metadata;
use crate::coin::Coin;

verus! {

/// What any caller, whitelisted caller or manager may ask of the issuance
/// middleware.
#[derive(Debug)]
pub enum ExecuteMsg {
    /// Anyone: burn the factory coins attached to the call.
    Burn {},
    /// Whitelisted callers: issue the listed coins to an address.
    Mint { address: String, denom: Vec<Coin> },
    /// Manager: burn a holder's coins.
    BurnFrom { from: String, denom: Coin },
    /// Manager: hand a denomination's admin rights to another address.
    TransferAdmin { denom: String, new_address: String },
    /// Manager: move coins between two addresses by admin authority.
    ForceTransfer { from: String, to: String, denom: Coin },
    /// Manager: replace a denomination's bank metadata.
    SetMetadata { denom: String, metadata: Metadata },
    /// Manager: allow more addresses to mint.
    AddWhitelist { addresses: Vec<String> },
    /// Manager: withdraw minting permission.
    RemoveWhitelist { addresses: Vec<String> },
    /// Manager: put more denominations under management.
    AddDenom { denoms: Vec<String> },
    /// Manager: stop managing denominations.
    RemoveDenom { denoms: Vec<String> },
}

} // verus!
