//! One-way conversion of a native denomination into its factory
//! counterpart: whatever is sent in is burned and the same amount of the
//! factory denomination is minted back to the sender, one to one.

use vstd::prelude::*;
use vstd::string::StringExecFns;
use crate::account::{valid_account_id, check_account_id};
use crate::coin::{Coin, concat_denoms, collect_denoms, clone_coins};
use crate::denom::{has_factory_prefix, check_factory_prefix};
use crate::error::ContractError;
use crate::tokenfactory_types::ExecuteMsg as TfExecuteMsg;

verus! {

/// The converter's persisted state.
#[derive(Debug)]
pub struct State {
    /// The issuance middleware that mints on this contract's behalf.
    pub contract_minter_address: String,
    /// The native denomination being converted away from.
    pub burn_denom: String,
    /// The factory denomination being converted to.
    pub tf_denom: String,
}

/// The converter's instantiation message.
#[derive(Debug)]
pub struct InstantiateMsg {
    pub tf_denom: String,
    pub burn_denom: String,
    pub contract_minter_address: String,
}

/// Execution commands of the converter.
#[derive(Debug)]
pub enum ExecuteMsg {
    /// Convert the attached funds one to one.
    Convert {},
}

/// Read-only queries of the converter.
#[derive(Debug)]
pub enum QueryMsg {
    GetConfig {},
}

/// Answer of the configuration query.
#[derive(Debug)]
pub struct GetConfig {
    pub contract_minter_address: String,
    pub burn_denom: String,
    pub tf_denom: String,
}

/// Validates the factory denomination and the middleware address, and
/// returns the state to persist.
pub fn instantiate(msg: InstantiateMsg) -> (r: Result<State, ContractError>)
    ensures
        !has_factory_prefix(msg.tf_denom@) ==> ({
            &&& r matches Err(e)
            &&& (r matches Err(e) ==> e matches ContractError::InvalidDenom { denom, message }
                && denom@ == msg.tf_denom@ && message@ == "Denom must start with 'factory/'"@)
        }),
        has_factory_prefix(msg.tf_denom@) && !valid_account_id(msg.contract_minter_address@)
            ==> r == Err::<State, ContractError>(ContractError::InvalidAddress),
        has_factory_prefix(msg.tf_denom@) && valid_account_id(msg.contract_minter_address@) ==> ({
            &&& r matches Ok(st)
            &&& (r matches Ok(st) ==> st.contract_minter_address == msg.contract_minter_address
                && st.burn_denom == msg.burn_denom && st.tf_denom == msg.tf_denom)
        }),
{
    if !check_factory_prefix(msg.tf_denom.as_str()) {
        return Err(
            ContractError::InvalidDenom {
                denom: msg.tf_denom,
                message: String::from_str("Denom must start with 'factory/'"),
            },
        );
    }
    if !check_account_id(msg.contract_minter_address.as_str()) {
        return Err(ContractError::InvalidAddress);
    }
    Ok(
        State {
            contract_minter_address: msg.contract_minter_address,
            burn_denom: msg.burn_denom,
            tf_denom: msg.tf_denom,
        },
    )
}

/// What one conversion produced: the funds to burn and the mint to ask of
/// the middleware, dispatched in that order.
#[derive(Debug)]
pub struct ConvertResponse {
    /// The attached funds, handed to the bank module to burn.
    pub burn_funds: Vec<Coin>,
    /// The issuance middleware asked to mint.
    pub minter_contract: String,
    /// The mint instruction: the converted amount, to the sender.
    pub mint: TfExecuteMsg,
}

/// Everything one conversion promises: exactly one coin of the configured
/// native denomination must be attached, and then that amount of the
/// factory denomination is minted back to the sender.
pub open spec fn convert_post(
    state: State,
    sender: Seq<char>,
    funds: Seq<Coin>,
    r: Result<ConvertResponse, ContractError>,
) -> bool {
    &&& (funds.len() == 0 ==> r == Err::<ConvertResponse, ContractError>(
        ContractError::NoFundsSent,
    ))
    &&& (funds.len() > 1 ==> {
        &&& r matches Err(e)
        &&& (r matches Err(e) ==> e matches ContractError::InvalidDenom { denom, message }
            && denom@ == concat_denoms(funds) && message@ == "Only one denom can be sent"@)
    })
    &&& (funds.len() == 1 && funds[0].denom@ != state.burn_denom@ ==> {
        &&& r matches Err(e)
        &&& (r matches Err(e) ==> e matches ContractError::InvalidDenom { denom, message }
            && denom@ == funds[0].denom@ && message@
            == "This is not the correct denom to get the factory denom"@)
    })
    &&& (funds.len() == 1 && funds[0].denom@ == state.burn_denom@ ==> {
        &&& r matches Ok(res)
        &&& (r matches Ok(res) ==> {
            &&& res.burn_funds@ == funds
            &&& res.minter_contract@ == state.contract_minter_address@
            &&& res.mint matches TfExecuteMsg::Mint { address, denom }
            &&& (res.mint matches TfExecuteMsg::Mint { address, denom } ==> address@ == sender
                && denom@.len() == 1 && denom@[0].denom@ == state.tf_denom@ && denom@[0].amount
                == funds[0].amount)
        })
    })
}

/// Converts the attached funds: burn them, mint the factory denomination.
pub fn execute_convert(state: &State, sender: &String, funds: &Vec<Coin>) -> (r: Result<
    ConvertResponse,
    ContractError,
>)
    ensures
        convert_post(*state, sender@, funds@, r),
{
    if funds.len() == 0 {
        return Err(ContractError::NoFundsSent);
    }
    if funds.len() > 1 {
        return Err(
            ContractError::InvalidDenom {
                denom: collect_denoms(funds),
                message: String::from_str("Only one denom can be sent"),
            },
        );
    }
    let amt = funds[0].amount;
    if !funds[0].denom.eq(&state.burn_denom) {
        return Err(
            ContractError::InvalidDenom {
                denom: funds[0].denom.clone(),
                message: String::from_str("This is not the correct denom to get the factory denom"),
            },
        );
    }
    let mut minted: Vec<Coin> = Vec::new();
    minted.push(Coin { denom: state.tf_denom.clone(), amount: amt });
    Ok(
        ConvertResponse {
            burn_funds: clone_coins(funds),
            minter_contract: state.contract_minter_address.clone(),
            mint: TfExecuteMsg::Mint { address: sender.clone(), denom: minted },
        },
    )
}

/// Entry point for execution commands.
pub fn execute(state: &State, sender: &String, funds: &Vec<Coin>, msg: ExecuteMsg) -> (r: Result<
    ConvertResponse,
    ContractError,
>)
    ensures
        match msg {
            ExecuteMsg::Convert {} => convert_post(*state, sender@, funds@, r),
        },
{
    match msg {
        ExecuteMsg::Convert {} => execute_convert(state, sender, funds),
    }
}

/// Answers the configuration query.
pub fn query_config(state: &State) -> (r: GetConfig)
    ensures
        r.contract_minter_address == state.contract_minter_address,
        r.burn_denom == state.burn_denom,
        r.tf_denom == state.tf_denom,
{
    GetConfig {
        contract_minter_address: state.contract_minter_address.clone(),
        burn_denom: state.burn_denom.clone(),
        tf_denom: state.tf_denom.clone(),
    }
}

} // verus!
