//! One-way redemption of a legacy token into the factory denomination:
//! tokens returned through the legacy contract are burned and the same
//! amount of the factory denomination is minted back to the holder.

use vstd::prelude::*;
use vstd::string::StringExecFns;
use crate::account::{valid_account_id, check_account_id};
use crate::coin::Coin;
use crate::cw20_types::Cw20ReceiveMsg;
use crate::denom::{has_factory_prefix, check_factory_prefix};
use crate::error::ContractError;
use crate::tokenfactory_types::ExecuteMsg as TfExecuteMsg;

verus! {

/// The redeemer's persisted state.
#[derive(Debug)]
pub struct State {
    /// The issuance middleware that mints on this contract's behalf.
    pub contract_minter_address: String,
    /// The legacy token contract whose returns are redeemed.
    pub cw20_token_address: String,
    /// The factory denomination being redeemed into.
    pub tf_denom: String,
}

/// The redeemer's instantiation message.
#[derive(Debug)]
pub struct InstantiateMsg {
    pub contract_minter_address: String,
    pub cw20_token_address: String,
    pub tf_denom: String,
}

/// Execution commands of the redeemer.
#[derive(Debug)]
pub enum ExecuteMsg {
    /// A legacy-token send arriving through the token contract.
    Receive(Cw20ReceiveMsg),
}

/// Read-only queries of the redeemer.
#[derive(Debug)]
pub enum QueryMsg {
    GetConfig {},
}

/// Answer of the configuration query.
#[derive(Debug)]
pub struct GetConfig {
    pub contract_minter_address: String,
    pub cw20_token_address: String,
    pub tf_denom: String,
}

/// Validates the inputs and returns the state to persist.
pub fn instantiate(msg: InstantiateMsg) -> (r: Result<State, ContractError>)
    ensures
        !valid_account_id(msg.cw20_token_address@) ==> r == Err::<State, ContractError>(
            ContractError::InvalidAddress,
        ),
        valid_account_id(msg.cw20_token_address@) && !has_factory_prefix(msg.tf_denom@) ==> ({
            &&& r matches Err(e)
            &&& (r matches Err(e) ==> e matches ContractError::InvalidDenom { denom, message }
                && denom@ == msg.tf_denom@ && message@ == "Denom must start with 'factory/'"@)
        }),
        valid_account_id(msg.cw20_token_address@) && has_factory_prefix(msg.tf_denom@)
            && !valid_account_id(msg.contract_minter_address@) ==> r == Err::<
            State,
            ContractError,
        >(ContractError::InvalidAddress),
        valid_account_id(msg.cw20_token_address@) && has_factory_prefix(msg.tf_denom@)
            && valid_account_id(msg.contract_minter_address@) ==> ({
            &&& r matches Ok(st)
            &&& (r matches Ok(st) ==> st.contract_minter_address == msg.contract_minter_address
                && st.cw20_token_address == msg.cw20_token_address && st.tf_denom == msg.tf_denom)
        }),
{
    if !check_account_id(msg.cw20_token_address.as_str()) {
        return Err(ContractError::InvalidAddress);
    }
    if !check_factory_prefix(msg.tf_denom.as_str()) {
        return Err(
            ContractError::InvalidDenom {
                denom: msg.tf_denom,
                message: String::from_str("Denom must start with 'factory/'"),
            },
        );
    }
    if !check_account_id(msg.contract_minter_address.as_str()) {
        return Err(ContractError::InvalidAddress);
    }
    Ok(
        State {
            contract_minter_address: msg.contract_minter_address,
            cw20_token_address: msg.cw20_token_address,
            tf_denom: msg.tf_denom,
        },
    )
}

/// What one redemption produced: the legacy burn and the mint to ask of
/// the middleware, dispatched in that order.
#[derive(Debug)]
pub struct RedeemResponse {
    /// The legacy token contract told to burn the returned tokens.
    pub burn_contract: String,
    /// How much it burns.
    pub burn_amount: u128,
    /// The issuance middleware asked to mint.
    pub minter_contract: String,
    /// The mint instruction: the redeemed amount, to the original holder.
    pub mint: TfExecuteMsg,
}

/// Everything one redemption promises: only the configured legacy contract
/// may deliver returns, and then the returned amount is burned there and
/// minted to the original holder as the factory denomination.
pub open spec fn redeem_post(
    state: State,
    sender: Seq<char>,
    cw20_msg: Cw20ReceiveMsg,
    r: Result<RedeemResponse, ContractError>,
) -> bool {
    &&& (sender != state.cw20_token_address@ ==> r == Err::<RedeemResponse, ContractError>(
        ContractError::InvalidCW20Address,
    ))
    &&& (sender == state.cw20_token_address@ ==> {
        &&& r matches Ok(res)
        &&& (r matches Ok(res) ==> {
            &&& res.burn_contract@ == sender
            &&& res.burn_amount == cw20_msg.amount
            &&& res.minter_contract@ == state.contract_minter_address@
            &&& res.mint matches TfExecuteMsg::Mint { address, denom }
            &&& (res.mint matches TfExecuteMsg::Mint { address, denom } ==> address@
                == cw20_msg.sender@ && denom@.len() == 1 && denom@[0].denom@ == state.tf_denom@
                && denom@[0].amount == cw20_msg.amount)
        })
    })
}

/// Redeems a legacy-token return: burn it at its contract, mint the
/// factory denomination to the holder who sent it.
pub fn execute_redeem_mint(state: &State, sender: &String, cw20_msg: Cw20ReceiveMsg) -> (r: Result<
    RedeemResponse,
    ContractError,
>)
    ensures
        redeem_post(*state, sender@, cw20_msg, r),
{
    if !sender.eq(&state.cw20_token_address) {
        return Err(ContractError::InvalidCW20Address);
    }
    let mut minted: Vec<Coin> = Vec::new();
    minted.push(Coin { denom: state.tf_denom.clone(), amount: cw20_msg.amount });
    Ok(
        RedeemResponse {
            burn_contract: sender.clone(),
            burn_amount: cw20_msg.amount,
            minter_contract: state.contract_minter_address.clone(),
            mint: TfExecuteMsg::Mint { address: cw20_msg.sender, denom: minted },
        },
    )
}

/// Entry point for execution commands.
pub fn execute(state: &State, sender: &String, msg: ExecuteMsg) -> (r: Result<
    RedeemResponse,
    ContractError,
>)
    ensures
        match msg {
            ExecuteMsg::Receive(m) => redeem_post(*state, sender@, m, r),
        },
{
    match msg {
        ExecuteMsg::Receive(m) => execute_redeem_mint(state, sender, m),
    }
}

/// Answers the configuration query.
pub fn query_config(state: &State) -> (r: GetConfig)
    ensures
        r.contract_minter_address == state.contract_minter_address,
        r.cw20_token_address == state.cw20_token_address,
        r.tf_denom == state.tf_denom,
{
    GetConfig {
        contract_minter_address: state.contract_minter_address.clone(),
        cw20_token_address: state.cw20_token_address.clone(),
        tf_denom: state.tf_denom.clone(),
    }
}

} // verus!
