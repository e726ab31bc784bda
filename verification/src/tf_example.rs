//! A minimal client of the issuance middleware: it forwards a mint request
//! to a middleware contract, taken from the call or from its own
//! configuration.

use vstd::prelude::*;
use crate::account::{valid_account_id, check_account_id};
use crate::coin::Coin;
use crate::error::ContractError;
use crate::text::opt_str_view;
use crate::tokenfactory_types::ExecuteMsg as TfExecuteMsg;

verus! {

/// The client's persisted configuration.
#[derive(Debug)]
pub struct Config {
    /// The default issuance middleware, if one was configured.
    pub core_address: Option<String>,
}

/// The client's instantiation message.
#[derive(Debug)]
pub struct InstantiateMsg {
    /// The middleware handling all denominations, if fixed up front.
    pub core_factory_address: Option<String>,
}

/// Execution commands of the client.
#[derive(Debug)]
pub enum ExecuteMsg {
    /// Ask a middleware to mint the listed coins to an address.
    MintTokens {
        /// Overrides the configured middleware for this call.
        core_factory_address: Option<String>,
        denoms: Vec<Coin>,
        to_address: String,
    },
}

/// Read-only queries of the client.
#[derive(Debug)]
pub enum QueryMsg {
    GetConfig {},
}

/// Validates the optional middleware address and returns the configuration
/// to persist.
pub fn instantiate(msg: InstantiateMsg) -> (r: Result<Config, ContractError>)
    ensures
        match msg.core_factory_address {
            Some(a) => {
                &&& (!valid_account_id(a@) ==> r == Err::<Config, ContractError>(
                    ContractError::InvalidAddress,
                ))
                &&& (valid_account_id(a@) ==> {
                    &&& r matches Ok(c)
                    &&& (r matches Ok(c) ==> opt_str_view(c.core_address) == Some(a@))
                })
            },
            None => {
                &&& r matches Ok(c)
                &&& (r matches Ok(c) ==> c.core_address is None)
            },
        },
{
    match msg.core_factory_address {
        Some(a) => {
            if !check_account_id(a.as_str()) {
                return Err(ContractError::InvalidAddress);
            }
            Ok(Config { core_address: Some(a) })
        },
        None => Ok(Config { core_address: None }),
    }
}

/// What a mint request produced: the middleware to call and the
/// instruction to hand it.
#[derive(Debug)]
pub struct MintTokensResponse {
    pub core_contract: String,
    pub mint: TfExecuteMsg,
}

/// The middleware a mint request resolves to: the one named in the call,
/// or the configured one.
pub open spec fn resolved_core(config: Config, core_factory_address: Option<String>) -> Seq<char> {
    match core_factory_address {
        Some(a) => a@,
        None => config.core_address->0@,
    }
}

/// Entry point for execution commands: forwards the mint request to the
/// resolved middleware.  A call that names no middleware requires a
/// configured one.
pub fn execute(config: &Config, msg: ExecuteMsg) -> (r: Result<MintTokensResponse, ContractError>)
    requires
        match msg {
            ExecuteMsg::MintTokens { core_factory_address, .. } => core_factory_address is Some
                || config.core_address is Some,
        },
    ensures
        match msg {
            ExecuteMsg::MintTokens { core_factory_address, denoms, to_address } => {
                &&& (!valid_account_id(resolved_core(*config, core_factory_address)) ==> r
                    == Err::<MintTokensResponse, ContractError>(ContractError::InvalidAddress))
                &&& (valid_account_id(resolved_core(*config, core_factory_address)) ==> {
                    &&& r matches Ok(res)
                    &&& (r matches Ok(res) ==> {
                        &&& res.core_contract@ == resolved_core(*config, core_factory_address)
                        &&& res.mint matches TfExecuteMsg::Mint { address, denom }
                        &&& (res.mint matches TfExecuteMsg::Mint { address, denom } ==> address@
                            == to_address@ && denom@ == denoms@)
                    })
                })
            },
        },
{
    match msg {
        ExecuteMsg::MintTokens { core_factory_address, denoms, to_address } => {
            let core: String = match core_factory_address {
                Some(a) => a,
                None => match &config.core_address {
                    Some(a) => a.clone(),
                    None => {
                        return Err(ContractError::InvalidAddress);
                    },
                },
            };
            if !check_account_id(core.as_str()) {
                return Err(ContractError::InvalidAddress);
            }
            Ok(
                MintTokensResponse {
                    core_contract: core,
                    mint: TfExecuteMsg::Mint { address: to_address, denom: denoms },
                },
            )
        },
    }
}

/// Copies an optional string.
fn clone_opt_string(o: &Option<String>) -> (r: Option<String>)
    ensures
        r == *o,
{
    match o {
        None => None,
        Some(s) => Some(s.clone()),
    }
}

/// Answers the configuration query.
pub fn query_config(config: &Config) -> (r: Config)
    ensures
        r.core_address == config.core_address,
{
    Config { core_address: clone_opt_string(&config.core_address) }
}

} // verus!
