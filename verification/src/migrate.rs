//! One-way redemption into the factory denomination from either of two
//! sources: a legacy token returned through its contract, or a native
//! denomination attached to the call.  Whatever comes in is burned and the
//! same amount of the factory denomination is minted back, one to one.

use vstd::prelude::*;
use vstd::string::StringExecFns;
use crate::account::{valid_account_id, check_account_id};
use crate::coin::{Coin, concat_denoms, collect_denoms, clone_coins};
use crate::cw20_types::Cw20ReceiveMsg;
use crate::denom::{has_factory_prefix, check_factory_prefix};
use crate::error::ContractError;
use crate::text::opt_str_view;
use crate::tokenfactory_types::ExecuteMsg as TfExecuteMsg;

verus! {

/// The redeemer's persisted state.  Exactly one of `cw20_token_address`
/// and `burn_denom` is meant to be set; instantiation refuses both.
#[derive(Debug)]
pub struct State {
    /// The issuance middleware that mints on this contract's behalf.
    pub contract_minter_address: String,
    /// The legacy token contract redeemed through `Receive`, if any.
    pub cw20_token_address: Option<String>,
    /// The native denomination redeemed through `Convert`, if any.
    pub burn_denom: Option<String>,
    /// The factory denomination being redeemed into.
    pub tf_denom: String,
}

/// The redeemer's instantiation message.
#[derive(Debug)]
pub struct InstantiateMsg {
    pub contract_minter_address: String,
    /// If not set, `burn_denom` must be.
    pub cw20_token_address: Option<String>,
    /// If not set, `cw20_token_address` must be.
    pub burn_denom: Option<String>,
    pub tf_denom: String,
}

/// Execution commands of the redeemer.
#[derive(Debug)]
pub enum ExecuteMsg {
    /// A legacy-token send arriving through the token contract.
    Receive(Cw20ReceiveMsg),
    /// Convert attached native funds one to one.
    Convert {},
}

/// Read-only queries of the redeemer.
#[derive(Debug)]
pub enum QueryMsg {
    GetConfig {},
}

/// Answer of the configuration query.
#[derive(Debug)]
pub struct GetConfig {
    pub contract_minter_address: String,
    pub cw20_token_address: Option<String>,
    pub burn_denom: Option<String>,
    pub tf_denom: String,
}

/// The optional legacy-token address is well formed if present.
pub open spec fn cw20_addr_ok(msg: InstantiateMsg) -> bool {
    match msg.cw20_token_address {
        None => true,
        Some(a) => valid_account_id(a@),
    }
}

/// Validates the inputs and returns the state to persist: the legacy-token
/// address if given, never both sources at once, a namespaced factory
/// denomination, and a well-formed middleware address.
pub fn instantiate(msg: InstantiateMsg) -> (r: Result<State, ContractError>)
    ensures
        !cw20_addr_ok(msg) ==> r == Err::<State, ContractError>(ContractError::InvalidAddress),
        cw20_addr_ok(msg) && msg.cw20_token_address is Some && msg.burn_denom is Some ==> ({
            &&& r matches Err(e)
            &&& (r matches Err(e) ==> e matches ContractError::InvalidDenom { denom, message }
                && denom@ == msg.tf_denom@ && message@
                == "Cannot set both burn_denom & cw20_token_address"@)
        }),
        cw20_addr_ok(msg) && !(msg.cw20_token_address is Some && msg.burn_denom is Some)
            && !has_factory_prefix(msg.tf_denom@) ==> ({
            &&& r matches Err(e)
            &&& (r matches Err(e) ==> e matches ContractError::InvalidDenom { denom, message }
                && denom@ == msg.tf_denom@ && message@ == "Denom must start with 'factory/'"@)
        }),
        cw20_addr_ok(msg) && !(msg.cw20_token_address is Some && msg.burn_denom is Some)
            && has_factory_prefix(msg.tf_denom@) && !valid_account_id(
            msg.contract_minter_address@,
        ) ==> r == Err::<State, ContractError>(ContractError::InvalidAddress),
        cw20_addr_ok(msg) && !(msg.cw20_token_address is Some && msg.burn_denom is Some)
            && has_factory_prefix(msg.tf_denom@) && valid_account_id(
            msg.contract_minter_address@,
        ) ==> ({
            &&& r matches Ok(st)
            &&& (r matches Ok(st) ==> {
                &&& st.contract_minter_address == msg.contract_minter_address
                &&& st.cw20_token_address == msg.cw20_token_address
                &&& st.burn_denom == msg.burn_denom
                &&& st.tf_denom == msg.tf_denom
            })
        }),
{
    match &msg.cw20_token_address {
        Some(a) => {
            if !check_account_id(a.as_str()) {
                return Err(ContractError::InvalidAddress);
            }
        },
        None => {},
    }
    if msg.cw20_token_address.is_some() && msg.burn_denom.is_some() {
        return Err(
            ContractError::InvalidDenom {
                denom: msg.tf_denom,
                message: String::from_str("Cannot set both burn_denom & cw20_token_address"),
            },
        );
    }
    if !check_factory_prefix(msg.tf_denom.as_str()) {
        return Err(
            ContractError::InvalidDenom {
                denom: msg.tf_denom,
                message: String::from_str("Denom must start with 'factory/'"),
            },
        );
    }
    if !check_account_id(msg.contract_minter_address.as_str()) {
        return Err(ContractError::InvalidAddress);
    }
    Ok(
        State {
            contract_minter_address: msg.contract_minter_address,
            cw20_token_address: msg.cw20_token_address,
            burn_denom: msg.burn_denom,
            tf_denom: msg.tf_denom,
        },
    )
}

/// How the incoming value is destroyed before the factory denomination is
/// minted.
#[derive(Debug)]
pub enum RedeemMsg {
    /// Burn legacy tokens held by this contract, through their contract.
    Cw20Burn { contract_addr: String, amount: u128 },
    /// Burn attached native coins through the bank module.
    BankBurn { amount: Vec<Coin> },
}

/// What one redemption produced: the burn and the mint to ask of the
/// middleware, dispatched in that order.
#[derive(Debug)]
pub struct RedeemResponse {
    pub burn: RedeemMsg,
    /// The issuance middleware asked to mint.
    pub minter_contract: String,
    /// The mint instruction: the redeemed amount, to the redeeming holder.
    pub mint: TfExecuteMsg,
}

/// The legacy-token address the redeemer compares senders against: the
/// configured one, or the empty identifier if none is configured.
pub open spec fn cw20_addr_view(state: State) -> Seq<char> {
    match state.cw20_token_address {
        None => Seq::empty(),
        Some(a) => a@,
    }
}

/// Everything a legacy-token redemption promises about its burn half.
pub open spec fn cw20_burn_post(
    state: State,
    cw20_sender: Seq<char>,
    amount: u128,
    r: Result<(RedeemMsg, u128), ContractError>,
) -> bool {
    &&& (cw20_sender != cw20_addr_view(state) ==> r == Err::<(RedeemMsg, u128), ContractError>(
        ContractError::InvalidCW20Address,
    ))
    &&& (cw20_sender == cw20_addr_view(state) ==> {
        &&& r matches Ok(p)
        &&& (r matches Ok(p) ==> {
            &&& p.0 matches RedeemMsg::Cw20Burn { contract_addr, amount: a }
            &&& (p.0 matches RedeemMsg::Cw20Burn { contract_addr, amount: a } ==> contract_addr@
                == cw20_sender && a == amount)
            &&& p.1 == amount
        })
    })
}

/// Burns returned legacy tokens, provided they came through the configured
/// token contract.
pub fn handle_cw20_burn(state: &State, cw20_msg: &Cw20ReceiveMsg, sender: &String) -> (r: Result<
    (RedeemMsg, u128),
    ContractError,
>)
    ensures
        cw20_burn_post(*state, sender@, cw20_msg.amount, r),
{
    let configured: bool = match &state.cw20_token_address {
        Some(a) => sender.eq(a),
        None => sender.as_str().is_empty(),
    };
    proof {
        if state.cw20_token_address is None && sender@.len() == 0 {
            assert(sender@ =~= cw20_addr_view(*state));
        }
    }
    if !configured {
        return Err(ContractError::InvalidCW20Address);
    }
    Ok(
        (
            RedeemMsg::Cw20Burn { contract_addr: sender.clone(), amount: cw20_msg.amount },
            cw20_msg.amount,
        ),
    )
}

/// Everything a native redemption promises about its burn half.
pub open spec fn native_burn_post(
    state: State,
    funds: Seq<Coin>,
    r: Result<(RedeemMsg, u128), ContractError>,
) -> bool {
    &&& (funds.len() == 0 ==> r == Err::<(RedeemMsg, u128), ContractError>(
        ContractError::NoFundsSent,
    ))
    &&& (funds.len() > 1 ==> {
        &&& r matches Err(e)
        &&& (r matches Err(e) ==> e matches ContractError::InvalidDenom { denom, message }
            && denom@ == concat_denoms(funds) && message@ == "Only one denom can be sent"@)
    })
    &&& (funds.len() == 1 && Some(funds[0].denom@) != opt_str_view(state.burn_denom) ==> {
        &&& r matches Err(e)
        &&& (r matches Err(e) ==> e matches ContractError::InvalidDenom { denom, message }
            && denom@ == funds[0].denom@ && message@
            == "This is not the correct denom to get the factory denom"@)
    })
    &&& (funds.len() == 1 && Some(funds[0].denom@) == opt_str_view(state.burn_denom) ==> {
        &&& r matches Ok(p)
        &&& (r matches Ok(p) ==> {
            &&& p.0 matches RedeemMsg::BankBurn { amount }
            &&& (p.0 matches RedeemMsg::BankBurn { amount } ==> amount@ == funds)
            &&& p.1 == funds[0].amount
        })
    })
}

/// Burns attached native funds, provided exactly one coin of the
/// configured denomination was attached.
pub fn handle_native(state: &State, funds: &Vec<Coin>) -> (r: Result<
    (RedeemMsg, u128),
    ContractError,
>)
    requires
        state.burn_denom is Some,
    ensures
        native_burn_post(*state, funds@, r),
{
    if funds.len() == 0 {
        return Err(ContractError::NoFundsSent);
    }
    if funds.len() > 1 {
        return Err(
            ContractError::InvalidDenom {
                denom: collect_denoms(funds),
                message: String::from_str("Only one denom can be sent"),
            },
        );
    }
    let amt = funds[0].amount;
    let matches_burn: bool = match &state.burn_denom {
        Some(d) => funds[0].denom.eq(d),
        None => false,
    };
    if !matches_burn {
        return Err(
            ContractError::InvalidDenom {
                denom: funds[0].denom.clone(),
                message: String::from_str("This is not the correct denom to get the factory denom"),
            },
        );
    }
    Ok((RedeemMsg::BankBurn { amount: clone_coins(funds) }, amt))
}

/// Everything one redemption promises: the burn half as above, and on
/// success a mint of the same amount of the factory denomination to the
/// redeeming holder (the legacy sender for a token return, the caller for
/// a native conversion).
pub open spec fn redeem_post(
    state: State,
    sender: Seq<char>,
    funds: Seq<Coin>,
    cw20_msg: Option<Cw20ReceiveMsg>,
    r: Result<RedeemResponse, ContractError>,
) -> bool {
    &&& (match cw20_msg {
        Some(m) => cw20_burn_post(state, sender, m.amount, map_burn(r)),
        None => native_burn_post(state, funds, map_burn(r)),
    })
    &&& (r matches Ok(res) ==> {
        &&& res.minter_contract@ == state.contract_minter_address@
        &&& res.mint matches TfExecuteMsg::Mint { address, denom }
        &&& (res.mint matches TfExecuteMsg::Mint { address, denom } ==> {
            &&& address@ == match cw20_msg {
                Some(m) => m.sender@,
                None => sender,
            }
            &&& denom@.len() == 1
            &&& denom@[0].denom@ == state.tf_denom@
            &&& denom@[0].amount == match cw20_msg {
                Some(m) => m.amount,
                None => if funds.len() == 1 {
                    funds[0].amount
                } else {
                    0
                },
            }
        })
    })
}

/// Projects a redemption result onto its burn half.
pub open spec fn map_burn(r: Result<RedeemResponse, ContractError>) -> Result<
    (RedeemMsg, u128),
    ContractError,
> {
    match r {
        Ok(res) => Ok(
            (
                res.burn,
                match res.mint {
                    TfExecuteMsg::Mint { address, denom } => if denom.len() == 1 {
                        denom[0].amount
                    } else {
                        0
                    },
                    _ => 0,
                },
            ),
        ),
        Err(e) => Err(e),
    }
}

/// Redeems either a returned legacy token or attached native funds: burn
/// the incoming value, mint the factory denomination to the holder.
pub fn execute_redeem_mint(
    state: &State,
    sender: &String,
    funds: &Vec<Coin>,
    cw20_msg: Option<Cw20ReceiveMsg>,
) -> (r: Result<RedeemResponse, ContractError>)
    requires
        cw20_msg is None ==> state.burn_denom is Some,
    ensures
        redeem_post(*state, sender@, funds@, cw20_msg, r),
{
    let (mint_to, amount, burn): (String, u128, RedeemMsg) = match &cw20_msg {
        Some(m) => {
            let (b, a) = match handle_cw20_burn(state, m, sender) {
                Ok(p) => p,
                Err(e) => {
                    return Err(e);
                },
            };
            (m.sender.clone(), a, b)
        },
        None => {
            let (b, a) = match handle_native(state, funds) {
                Ok(p) => p,
                Err(e) => {
                    return Err(e);
                },
            };
            (sender.clone(), a, b)
        },
    };
    let mut minted: Vec<Coin> = Vec::new();
    minted.push(Coin { denom: state.tf_denom.clone(), amount });
    Ok(
        RedeemResponse {
            burn,
            minter_contract: state.contract_minter_address.clone(),
            mint: TfExecuteMsg::Mint { address: mint_to, denom: minted },
        },
    )
}

/// Entry point for execution commands.  A native conversion requires a
/// configured burn denomination.
pub fn execute(state: &State, sender: &String, funds: &Vec<Coin>, msg: ExecuteMsg) -> (r: Result<
    RedeemResponse,
    ContractError,
>)
    requires
        msg is Convert ==> state.burn_denom is Some,
    ensures
        match msg {
            ExecuteMsg::Receive(m) => redeem_post(*state, sender@, funds@, Some(m), r),
            ExecuteMsg::Convert {} => redeem_post(*state, sender@, funds@, None, r),
        },
{
    match msg {
        ExecuteMsg::Receive(m) => execute_redeem_mint(state, sender, funds, Some(m)),
        ExecuteMsg::Convert {} => execute_redeem_mint(state, sender, funds, None),
    }
}

/// Copies an optional string.
fn clone_opt_string(o: &Option<String>) -> (r: Option<String>)
    ensures
        r == *o,
{
    match o {
        None => None,
        Some(s) => Some(s.clone()),
    }
}

/// Answers the configuration query.
pub fn query_config(state: &State) -> (r: GetConfig)
    ensures
        r.contract_minter_address == state.contract_minter_address,
        r.cw20_token_address == state.cw20_token_address,
        r.burn_denom == state.burn_denom,
        r.tf_denom == state.tf_denom,
{
    GetConfig {
        contract_minter_address: state.contract_minter_address.clone(),
        cw20_token_address: clone_opt_string(&state.cw20_token_address),
        burn_denom: clone_opt_string(&state.burn_denom),
        tf_denom: state.tf_denom.clone(),
    }
}

} // verus!
