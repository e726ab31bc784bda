//! The issuance-authority middleware: holds the admin rights over a set of
//! factory denominations and lets whitelisted contracts mint through it, so
//! that those contracts never speak the chain's token-factory dialect
//! themselves.

use vstd::prelude::*;
use vstd::string::StringExecFns;
use crate::account::{valid_account_id, check_account_id};
use crate::bindings::{DenomUnit, Metadata, TokenFactoryMsg};
use crate::coin::{Coin, clone_coin};
use crate::denom::{has_factory_prefix, check_factory_prefix};
use crate::error::ContractError;
use crate::text::{
    has_str, contains_string, add_unique, remove_all, push_unique, retain_not_in, dec_digits, clone_string_vec,
    u128_to_string, lower_chars, ascii_lowercase, opt_str_view,
};
pub use crate::tokenfactory_types::ExecuteMsg;

verus! {

/// The middleware's persisted configuration.
#[derive(Debug)]
pub struct Config {
    /// May administer denominations and the whitelist.
    pub manager: String,
    /// Contracts allowed to mint through this middleware.
    pub allowed_mint_addresses: Vec<String>,
    /// The denominations under management.
    pub denoms: Vec<String>,
}

/// A message the middleware hands to the host for dispatch.
#[derive(Debug)]
pub enum CoreMsg {
    /// An instruction to the chain's token-factory module.
    Token(TokenFactoryMsg),
    /// A bank transfer.
    Send { to_address: String, amount: Vec<Coin> },
}

/// Succeeds exactly for senders on the mint whitelist.
pub fn is_whitelisted(state: &Config, sender: &String) -> (r: Result<(), ContractError>)
    ensures
        r == if has_str(state.allowed_mint_addresses@, sender@) {
            Ok::<(), ContractError>(())
        } else {
            Err::<(), ContractError>(ContractError::Unauthorized)
        },
{
    if !contains_string(&state.allowed_mint_addresses, sender) {
        return Err(ContractError::Unauthorized);
    }
    Ok(())
}

/// Succeeds exactly for the manager.
pub fn is_contract_manager(config: &Config, sender: &String) -> (r: Result<(), ContractError>)
    ensures
        r == if config.manager@ == sender@ {
            Ok::<(), ContractError>(())
        } else {
            Err::<(), ContractError>(ContractError::Unauthorized)
        },
{
    if !config.manager.eq(sender) {
        return Err(ContractError::Unauthorized);
    }
    Ok(())
}

/// `m` mints `amount` of `denom` to `to`.
pub open spec fn is_mint_msg(m: TokenFactoryMsg, denom: Seq<char>, amount: u128, to: Seq<
    char,
>) -> bool {
    &&& m matches TokenFactoryMsg::MintTokens { denom: d, amount: a, mint_to_address: t }
    &&& (m matches TokenFactoryMsg::MintTokens { denom: d, amount: a, mint_to_address: t } ==> d@
        == denom && a == amount && t@ == to)
}

/// One mint instruction per listed coin, in order, all to `addr`.
pub open spec fn mint_list_ok(msgs: Seq<TokenFactoryMsg>, addr: Seq<char>, denoms: Seq<
    Coin,
>) -> bool {
    &&& msgs.len() == denoms.len()
    &&& forall|i: int|
        0 <= i < denoms.len() ==> is_mint_msg(
            #[trigger] msgs[i],
            denoms[i].denom@,
            denoms[i].amount,
            addr,
        )
}

/// The mint instructions for issuing each listed coin to `address`; at
/// least one coin must be listed.
pub fn mint_factory_token_messages(address: &String, denoms: &Vec<Coin>) -> (r: Result<
    Vec<TokenFactoryMsg>,
    ContractError,
>)
    ensures
        denoms@.len() == 0 ==> r == Err::<Vec<TokenFactoryMsg>, ContractError>(
            ContractError::NoDenomsProvided,
        ),
        denoms@.len() > 0 ==> {
            &&& r matches Ok(msgs)
            &&& (r matches Ok(msgs) ==> mint_list_ok(msgs@, address@, denoms@))
        },
{
    if denoms.len() == 0 {
        return Err(ContractError::NoDenomsProvided);
    }
    let n = denoms.len();
    let mut msgs: Vec<TokenFactoryMsg> = Vec::new();
    let mut i: usize = 0;
    while i < n
        invariant
            i <= n,
            n == denoms@.len(),
            msgs@.len() == i,
            forall|j: int|
                0 <= j < i ==> is_mint_msg(
                    #[trigger] msgs@[j],
                    denoms@[j].denom@,
                    denoms@[j].amount,
                    address@,
                ),
        decreases n - i,
    {
        msgs.push(
            TokenFactoryMsg::MintTokens {
                denom: denoms[i].denom.clone(),
                amount: denoms[i].amount,
                mint_to_address: address.clone(),
            },
        );
        i += 1;
    }
    Ok(msgs)
}

/// `amount:denom` for one coin.
pub open spec fn pretty_coin(c: Coin) -> Seq<char> {
    dec_digits(c.amount as int) + seq![':'] + c.denom@
}

/// The coins rendered `amount:denom`, joined by a comma and space.
pub open spec fn pretty_denoms(s: Seq<Coin>) -> Seq<char>
    decreases s.len(),
{
    if s.len() == 0 {
        Seq::empty()
    } else if s.len() == 1 {
        pretty_coin(s[0])
    } else {
        pretty_denoms(s.drop_last()) + seq![',', ' '] + pretty_coin(s.last())
    }
}

/// Renders a coin list for an observable attribute.
pub fn pretty_denoms_output(denoms: &Vec<Coin>) -> (r: String)
    ensures
        r@ == pretty_denoms(denoms@),
{
    proof {
        reveal_strlit(", ");
        reveal_strlit(":");
    }
    let n = denoms.len();
    let mut out = String::new();
    let mut i: usize = 0;
    proof {
        assert(out@ =~= pretty_denoms(denoms@.subrange(0, 0)));
    }
    while i < n
        invariant
            i <= n,
            n == denoms@.len(),
            out@ == pretty_denoms(denoms@.subrange(0, i as int)),
            ", "@ == seq![',', ' '],
            ":"@ == seq![':'],
        decreases n - i,
    {
        if i > 0 {
            out.append(", ");
        }
        let amt = u128_to_string(denoms[i].amount);
        out.append(amt.as_str());
        out.append(":");
        out.append(denoms[i].denom.as_str());
        proof {
            assert(denoms@.subrange(0, i + 1).drop_last() =~= denoms@.subrange(0, i as int));
            assert(out@ =~= pretty_denoms(denoms@.subrange(0, i + 1)));
        }
        i += 1;
    }
    proof {
        assert(denoms@.subrange(0, n as int) =~= denoms@);
    }
    out
}

/// The listed coins whose denomination is under management, in order.
pub open spec fn coins_in(funds: Seq<Coin>, denoms: Seq<String>) -> Seq<Coin>
    decreases funds.len(),
{
    if funds.len() == 0 {
        Seq::empty()
    } else {
        coins_in(funds.drop_last(), denoms) + if has_str(denoms, funds.last().denom@) {
            seq![funds.last()]
        } else {
            Seq::empty()
        }
    }
}

/// The listed coins whose denomination is not under management, in order.
pub open spec fn coins_out(funds: Seq<Coin>, denoms: Seq<String>) -> Seq<Coin>
    decreases funds.len(),
{
    if funds.len() == 0 {
        Seq::empty()
    } else {
        coins_out(funds.drop_last(), denoms) + if has_str(denoms, funds.last().denom@) {
            Seq::empty()
        } else {
            seq![funds.last()]
        }
    }
}

/// Burns the attached factory coins and returns everything else to the
/// sender.  Anyone may call this; they part with the funds they attach.
pub fn execute_burn(config: &Config, contract_address: &String, sender: &String, funds: &Vec<
    Coin,
>) -> (r: Result<Vec<CoreMsg>, ContractError>)
    ensures
        funds@.len() == 0 ==> r == Err::<Vec<CoreMsg>, ContractError>(ContractError::InvalidFunds),
        funds@.len() > 0 ==> {
            &&& r matches Ok(msgs)
            &&& (r matches Ok(msgs) ==> {
                let fac = coins_in(funds@, config.denoms@);
                &&& msgs@.len() == 1 + fac.len()
                &&& msgs@[0] matches CoreMsg::Send { to_address, amount }
                &&& (msgs@[0] matches CoreMsg::Send { to_address, amount } ==> to_address@
                    == sender@ && amount@ == coins_out(funds@, config.denoms@))
                &&& (forall|j: int|
                    0 <= j < fac.len() ==> {
                        let m = #[trigger] msgs@[j + 1];
                        &&& m matches CoreMsg::Token(TokenFactoryMsg::BurnTokens {
                            denom,
                            amount,
                            burn_from_address,
                        })
                        &&& (m matches CoreMsg::Token(TokenFactoryMsg::BurnTokens {
                            denom,
                            amount,
                            burn_from_address,
                        }) ==> denom@ == fac[j].denom@ && amount == fac[j].amount
                            && burn_from_address@ == contract_address@)
                    })
            })
        },
{
    if funds.len() == 0 {
        return Err(ContractError::InvalidFunds);
    }
    let n = funds.len();
    let mut factory_coins: Vec<Coin> = Vec::new();
    let mut send_back: Vec<Coin> = Vec::new();
    let mut i: usize = 0;
    while i < n
        invariant
            i <= n,
            n == funds@.len(),
            factory_coins@ == coins_in(funds@.subrange(0, i as int), config.denoms@),
            send_back@ == coins_out(funds@.subrange(0, i as int), config.denoms@),
        decreases n - i,
    {
        proof {
            assert(funds@.subrange(0, i + 1).drop_last() =~= funds@.subrange(0, i as int));
        }
        if contains_string(&config.denoms, &funds[i].denom) {
            factory_coins.push(clone_coin(&funds[i]));
            proof {
                assert(factory_coins@ =~= coins_in(funds@.subrange(0, i + 1), config.denoms@));
                assert(send_back@ =~= coins_out(funds@.subrange(0, i + 1), config.denoms@));
            }
        } else {
            send_back.push(clone_coin(&funds[i]));
            proof {
                assert(factory_coins@ =~= coins_in(funds@.subrange(0, i + 1), config.denoms@));
                assert(send_back@ =~= coins_out(funds@.subrange(0, i + 1), config.denoms@));
            }
        }
        i += 1;
    }
    proof {
        assert(funds@.subrange(0, n as int) =~= funds@);
    }
    let mut msgs: Vec<CoreMsg> = Vec::new();
    msgs.push(CoreMsg::Send { to_address: sender.clone(), amount: send_back });
    let k = factory_coins.len();
    let mut j: usize = 0;
    while j < k
        invariant
            j <= k,
            k == factory_coins@.len(),
            factory_coins@ == coins_in(funds@, config.denoms@),
            msgs@.len() == 1 + j,
            msgs@[0] matches CoreMsg::Send { to_address, amount } && to_address@ == sender@
                && amount@ == coins_out(funds@, config.denoms@),
            forall|l: int|
                0 <= l < j ==> ((#[trigger] msgs@[l + 1]) matches CoreMsg::Token(
                    TokenFactoryMsg::BurnTokens { denom, amount, burn_from_address },
                ) && denom@ == factory_coins@[l].denom@ && amount == factory_coins@[l].amount
                    && burn_from_address@ == contract_address@),
        decreases k - j,
    {
        msgs.push(
            CoreMsg::Token(
                TokenFactoryMsg::BurnTokens {
                    denom: factory_coins[j].denom.clone(),
                    amount: factory_coins[j].amount,
                    burn_from_address: contract_address.clone(),
                },
            ),
        );
        j += 1;
    }
    Ok(msgs)
}

/// Mints the listed coins to `address`, for whitelisted senders only.
pub fn execute_mint(config: &Config, sender: &String, address: &String, denoms: &Vec<Coin>) -> (r:
    Result<Vec<TokenFactoryMsg>, ContractError>)
    ensures
        !has_str(config.allowed_mint_addresses@, sender@) ==> r == Err::<
            Vec<TokenFactoryMsg>,
            ContractError,
        >(ContractError::Unauthorized),
        has_str(config.allowed_mint_addresses@, sender@) && denoms@.len() == 0 ==> r == Err::<
            Vec<TokenFactoryMsg>,
            ContractError,
        >(ContractError::NoDenomsProvided),
        has_str(config.allowed_mint_addresses@, sender@) && denoms@.len() > 0 ==> {
            &&& r matches Ok(msgs)
            &&& (r matches Ok(msgs) ==> mint_list_ok(msgs@, address@, denoms@))
        },
{
    if let Err(e) = is_whitelisted(config, sender) {
        return Err(e);
    }
    mint_factory_token_messages(address, denoms)
}

/// Hands the admin rights over `denom` to `new_addr` and stops managing it;
/// manager only.  A denomination the middleware never managed is handed
/// over as well, so admin rights received out of band can be reclaimed.
pub fn execute_transfer_admin(config: &mut Config, sender: &String, denom: String, new_addr: String) -> (r: Result<TokenFactoryMsg, ContractError>)
    ensures
        old(config).manager@ != sender@ ==> r == Err::<TokenFactoryMsg, ContractError>(
            ContractError::Unauthorized,
        ) && *final(config) == *old(config),
        old(config).manager@ == sender@ ==> {
            &&& r matches Ok(m)
            &&& (r matches Ok(m) ==> m == (TokenFactoryMsg::ChangeAdmin {
                denom: denom,
                new_admin_address: new_addr,
            }))
            &&& final(config).denoms@ == remove_all(old(config).denoms@, seq![denom])
            &&& final(config).manager == old(config).manager
            &&& final(config).allowed_mint_addresses == old(config).allowed_mint_addresses
        },
{
    if let Err(e) = is_contract_manager(config, sender) {
        return Err(e);
    }
    let mut rem: Vec<String> = Vec::new();
    rem.push(denom.clone());
    let kept = retain_not_in(&config.denoms, &rem);
    config.denoms = kept;
    proof {
        assert(rem@ =~= seq![denom]);
    }
    Ok(TokenFactoryMsg::ChangeAdmin { denom, new_admin_address: new_addr })
}

/// Wraps token-factory instructions for dispatch.
fn wrap_tokens(v: Vec<TokenFactoryMsg>) -> (r: Vec<CoreMsg>)
    ensures
        r@.len() == v@.len(),
        forall|i: int| 0 <= i < v@.len() ==> #[trigger] r@[i] == CoreMsg::Token(v@[i]),
{
    let ghost orig = v@;
    let mut v = v;
    let mut r: Vec<CoreMsg> = Vec::new();
    while v.len() > 0
        invariant
            r@.len() + v@.len() == orig.len(),
            v@ == orig.subrange(r@.len() as int, orig.len() as int),
            forall|i: int| 0 <= i < r@.len() ==> #[trigger] r@[i] == CoreMsg::Token(orig[i]),
        decreases v@.len(),
    {
        let t = v.remove(0);
        proof {
            assert(t == orig[r@.len() as int]);
        }
        r.push(CoreMsg::Token(t));
        proof {
            assert(v@ =~= orig.subrange(r@.len() as int, orig.len() as int));
        }
    }
    r
}

/// Everything one middleware command promises, relating the configuration
/// before (`pre`) and after (`post`) to the returned messages.  `env` is
/// this contract's own address, `from_balances` the bank balance of the
/// `BurnFrom` target as the host queried it.
pub open spec fn core_execute_post(
    pre: Config,
    post: Config,
    env: Seq<char>,
    sender: Seq<char>,
    funds: Seq<Coin>,
    msg: ExecuteMsg,
    from_balances: Seq<Coin>,
    r: Result<Vec<CoreMsg>, ContractError>,
) -> bool {
    match msg {
        ExecuteMsg::Burn {} => {
            &&& post == pre
            &&& (funds.len() == 0 ==> r == Err::<Vec<CoreMsg>, ContractError>(
                ContractError::InvalidFunds,
            ))
            &&& (funds.len() > 0 ==> {
                &&& r matches Ok(msgs)
                &&& (r matches Ok(msgs) ==> {
                    let fac = coins_in(funds, pre.denoms@);
                    &&& msgs@.len() == 1 + fac.len()
                    &&& msgs@[0] matches CoreMsg::Send { to_address, amount }
                    &&& (msgs@[0] matches CoreMsg::Send { to_address, amount } ==> to_address@
                        == sender && amount@ == coins_out(funds, pre.denoms@))
                    &&& (forall|j: int|
                        0 <= j < fac.len() ==> ((#[trigger] msgs@[j + 1]) matches CoreMsg::Token(
                            TokenFactoryMsg::BurnTokens { denom, amount, burn_from_address },
                        ) && denom@ == fac[j].denom@ && amount == fac[j].amount
                            && burn_from_address@ == env))
                })
            })
        },
        ExecuteMsg::Mint { address, denom } => {
            &&& post == pre
            &&& (!has_str(pre.allowed_mint_addresses@, sender) ==> r == Err::<
                Vec<CoreMsg>,
                ContractError,
            >(ContractError::Unauthorized))
            &&& (has_str(pre.allowed_mint_addresses@, sender) && denom@.len() == 0 ==> r == Err::<
                Vec<CoreMsg>,
                ContractError,
            >(ContractError::NoDenomsProvided))
            &&& (has_str(pre.allowed_mint_addresses@, sender) && denom@.len() > 0 ==> {
                &&& r matches Ok(msgs)
                &&& (r matches Ok(msgs) ==> {
                    &&& msgs@.len() == denom@.len()
                    &&& (forall|j: int|
                        0 <= j < denom@.len() ==> ((#[trigger] msgs@[j]) matches CoreMsg::Token(t)
                            && is_mint_msg(t, denom@[j].denom@, denom@[j].amount, address@)))
                })
            })
        },
        ExecuteMsg::BurnFrom { from, denom } => {
            &&& post == pre
            &&& (pre.manager@ != sender ==> r == Err::<Vec<CoreMsg>, ContractError>(
                ContractError::Unauthorized,
            ))
            &&& (pre.manager@ == sender ==> {
                let found = exists|i: int|
                    0 <= i < from_balances.len() && (#[trigger] from_balances[i]).denom@
                        == denom.denom@;
                &&& (!found ==> {
                    &&& r matches Err(e)
                    &&& (r matches Err(e) ==> e matches ContractError::InvalidDenom {
                        denom: d,
                        message,
                    } && d@ == denom.denom@ && message@ == "Denom not found in balance"@)
                })
                &&& (found ==> {
                    &&& r matches Ok(msgs)
                    &&& (r matches Ok(msgs) ==> msgs@.len() == 1 && (msgs@[0] matches
                    CoreMsg::Token(
                        TokenFactoryMsg::BurnTokens { denom: d, amount, burn_from_address },
                    ) && d@ == denom.denom@ && amount == denom.amount && burn_from_address@
                        == from@))
                })
            })
        },
        ExecuteMsg::TransferAdmin { denom, new_address } => {
            &&& (pre.manager@ != sender ==> r == Err::<Vec<CoreMsg>, ContractError>(
                ContractError::Unauthorized,
            ) && post == pre)
            &&& (pre.manager@ == sender ==> {
                &&& post.manager == pre.manager
                &&& post.allowed_mint_addresses == pre.allowed_mint_addresses
                &&& post.denoms@ == remove_all(pre.denoms@, seq![denom])
                &&& r matches Ok(msgs)
                &&& (r matches Ok(msgs) ==> msgs@.len() == 1 && (msgs@[0] matches CoreMsg::Token(
                    TokenFactoryMsg::ChangeAdmin { denom: d, new_admin_address },
                ) && d@ == denom@ && new_admin_address@ == new_address@))
            })
        },
        ExecuteMsg::ForceTransfer { from, to, denom } => {
            &&& post == pre
            &&& (pre.manager@ != sender ==> r == Err::<Vec<CoreMsg>, ContractError>(
                ContractError::Unauthorized,
            ))
            &&& (pre.manager@ == sender ==> {
                &&& r matches Ok(msgs)
                &&& (r matches Ok(msgs) ==> msgs@.len() == 1 && (msgs@[0] matches CoreMsg::Token(
                    TokenFactoryMsg::ForceTransfer {
                        denom: d,
                        amount,
                        from_address,
                        to_address,
                    },
                ) && d@ == denom.denom@ && amount == denom.amount && from_address@ == from@
                    && to_address@ == to@))
            })
        },
        ExecuteMsg::SetMetadata { denom, metadata } => {
            &&& post == pre
            &&& (pre.manager@ != sender ==> r == Err::<Vec<CoreMsg>, ContractError>(
                ContractError::Unauthorized,
            ))
            &&& (pre.manager@ == sender ==> {
                &&& r matches Ok(msgs)
                &&& (r matches Ok(msgs) ==> msgs@.len() == 1 && (msgs@[0] matches CoreMsg::Token(
                    TokenFactoryMsg::SetMetadata { denom: d, metadata: md },
                ) && d@ == denom@ && md == metadata))
            })
        },
        ExecuteMsg::AddWhitelist { addresses } => {
            &&& (pre.manager@ != sender ==> r == Err::<Vec<CoreMsg>, ContractError>(
                ContractError::Unauthorized,
            ) && post == pre)
            &&& (pre.manager@ == sender ==> {
                &&& post.manager == pre.manager
                &&& post.denoms == pre.denoms
                &&& post.allowed_mint_addresses@ == add_unique(
                    pre.allowed_mint_addresses@,
                    addresses@,
                )
                &&& r matches Ok(msgs)
                &&& (r matches Ok(msgs) ==> msgs@.len() == 0)
            })
        },
        ExecuteMsg::RemoveWhitelist { addresses } => {
            &&& (pre.manager@ != sender ==> r == Err::<Vec<CoreMsg>, ContractError>(
                ContractError::Unauthorized,
            ) && post == pre)
            &&& (pre.manager@ == sender ==> {
                &&& post.manager == pre.manager
                &&& post.denoms == pre.denoms
                &&& post.allowed_mint_addresses@ == remove_all(
                    pre.allowed_mint_addresses@,
                    addresses@,
                )
                &&& r matches Ok(msgs)
                &&& (r matches Ok(msgs) ==> msgs@.len() == 0)
            })
        },
        ExecuteMsg::AddDenom { denoms } => {
            &&& (pre.manager@ != sender ==> r == Err::<Vec<CoreMsg>, ContractError>(
                ContractError::Unauthorized,
            ) && post == pre)
            &&& (pre.manager@ == sender ==> {
                &&& post.manager == pre.manager
                &&& post.allowed_mint_addresses == pre.allowed_mint_addresses
                &&& post.denoms@ == add_unique(pre.denoms@, denoms@)
                &&& r matches Ok(msgs)
                &&& (r matches Ok(msgs) ==> msgs@.len() == 0)
            })
        },
        ExecuteMsg::RemoveDenom { denoms } => {
            &&& (pre.manager@ != sender ==> r == Err::<Vec<CoreMsg>, ContractError>(
                ContractError::Unauthorized,
            ) && post == pre)
            &&& (pre.manager@ == sender ==> {
                &&& post.manager == pre.manager
                &&& post.allowed_mint_addresses == pre.allowed_mint_addresses
                &&& post.denoms@ == remove_all(pre.denoms@, denoms@)
                &&& r matches Ok(msgs)
                &&& (r matches Ok(msgs) ==> msgs@.len() == 0)
            })
        },
    }
}

/// Answers the configuration query.  Balance queries go to the host's bank
/// module instead.
pub fn query_config(config: &Config) -> (r: Config)
    ensures
        r.manager == config.manager,
        r.allowed_mint_addresses@ == config.allowed_mint_addresses@,
        r.denoms@ == config.denoms@,
{
    Config {
        manager: config.manager.clone(),
        allowed_mint_addresses: clone_string_vec(&config.allowed_mint_addresses),
        denoms: clone_string_vec(&config.denoms),
    }
}

/// What a new denomination is instantiated with.
#[derive(Debug)]
pub struct NewDenom {
    pub name: String,
    pub description: Option<String>,
    pub symbol: String,
    pub decimals: u32,
    pub initial_balances: Option<Vec<InitialBalance>>,
}

/// A balance minted right after a denomination is created.
#[derive(Debug)]
pub struct InitialBalance {
    pub address: String,
    pub amount: u128,
}

/// The middleware's instantiation message.
#[derive(Debug)]
pub struct InstantiateMsg {
    /// May administer denominations and the whitelist; the sender if absent.
    pub manager: Option<String>,
    pub allowed_mint_addresses: Vec<String>,
    /// Denominations that already exist, e.g. `factory/<addr>/<sub>`.
    pub existing_denoms: Option<Vec<String>>,
    pub new_denoms: Option<Vec<NewDenom>>,
}

/// Read-only queries of the middleware.  Balance queries are answered by
/// the host's bank module, not from this configuration.
#[derive(Debug)]
pub enum QueryMsg {
    GetConfig {},
    GetBalance { address: String, denom: String },
    GetAllBalances { address: String },
}

/// The reserved namespace prefix, as characters.
pub open spec fn factory_prefix_chars() -> Seq<char> {
    seq!['f', 'a', 'c', 't', 'o', 'r', 'y', '/']
}

/// The full denomination of a new token: `factory/<contract>/<subdenom>`,
/// the subdenom being the lowercased symbol.
pub open spec fn full_denom_of(env: Seq<char>, symbol: Seq<char>) -> Seq<char> {
    factory_prefix_chars() + env + seq!['/'] + lower_chars(symbol)
}

/// The views of a list of strings.
pub open spec fn str_views(v: Seq<String>) -> Seq<Seq<char>> {
    Seq::new(v.len(), |i: int| v[i]@)
}

/// The initial balances of a new denomination, an absent list reading as
/// empty.
pub open spec fn init_bals(nd: NewDenom) -> Seq<InitialBalance> {
    match nd.initial_balances {
        None => Seq::empty(),
        Some(v) => v@,
    }
}

/// One initial-balance mint, as the specification sees it.
pub ghost struct MintView {
    pub addr: Seq<char>,
    pub denom: Seq<char>,
    pub amount: u128,
}

/// The initial-balance mints of one new denomination, in order.
pub open spec fn mints_of_one(env: Seq<char>, nd: NewDenom) -> Seq<MintView> {
    Seq::new(
        init_bals(nd).len(),
        |i: int|
            MintView {
                addr: init_bals(nd)[i].address@,
                denom: full_denom_of(env, nd.symbol@),
                amount: init_bals(nd)[i].amount,
            },
    )
}

/// The initial-balance mints of all new denominations, in order.
pub open spec fn mints_of(env: Seq<char>, nds: Seq<NewDenom>) -> Seq<MintView>
    decreases nds.len(),
{
    if nds.len() == 0 {
        Seq::empty()
    } else {
        mints_of(env, nds.drop_last()) + mints_of_one(env, nds.last())
    }
}

/// `m` performs the mint `mv`.
pub open spec fn is_mint_of(m: TokenFactoryMsg, mv: MintView) -> bool {
    &&& m matches TokenFactoryMsg::MintTokens { denom, amount, mint_to_address }
    &&& (m matches TokenFactoryMsg::MintTokens { denom, amount, mint_to_address } ==> denom@
        == mv.denom && amount == mv.amount && mint_to_address@ == mv.addr)
}

/// `m` creates the denomination described by `nd` under `env`, with its
/// full metadata.
pub open spec fn is_create_denom_for(m: TokenFactoryMsg, env: Seq<char>, nd: NewDenom) -> bool {
    &&& m matches TokenFactoryMsg::CreateDenom { subdenom, metadata }
    &&& (m matches TokenFactoryMsg::CreateDenom { subdenom, metadata } ==> {
        &&& subdenom@ == lower_chars(nd.symbol@)
        &&& metadata matches Some(md)
        &&& (metadata matches Some(md) ==> {
            &&& opt_str_view(md.name) == Some(nd.name@)
            &&& opt_str_view(md.description) == opt_str_view(nd.description)
            &&& md.denom_units@.len() == 2
            &&& md.denom_units@[0].denom@ == full_denom_of(env, nd.symbol@)
            &&& md.denom_units@[0].exponent == 0
            &&& md.denom_units@[0].aliases@.len() == 0
            &&& md.denom_units@[1].denom@ == nd.symbol@
            &&& md.denom_units@[1].exponent == nd.decimals
            &&& md.denom_units@[1].aliases@.len() == 0
            &&& opt_str_view(md.base) == Some(full_denom_of(env, nd.symbol@))
            &&& opt_str_view(md.display) == Some(nd.symbol@)
            &&& opt_str_view(md.symbol) == Some(nd.symbol@)
        })
    })
}

/// Every listed denomination carries the reserved prefix.
pub open spec fn all_prefixed(v: Seq<String>) -> bool {
    forall|i: int| 0 <= i < v.len() ==> has_factory_prefix((#[trigger] v[i])@)
}

/// Every initial-balance address of every new denomination is well formed.
pub open spec fn all_addrs_valid(nds: Seq<NewDenom>) -> bool {
    forall|i: int, j: int|
        0 <= i < nds.len() && 0 <= j < init_bals(nds[i]).len() ==> valid_account_id(
            (#[trigger] init_bals(nds[i])[j]).address@,
        )
}

/// The existing denominations named at instantiation, an absent list
/// reading as empty.
pub open spec fn existing_of(msg: InstantiateMsg) -> Seq<String> {
    match msg.existing_denoms {
        None => Seq::empty(),
        Some(v) => v@,
    }
}

/// The new denominations named at instantiation, an absent list reading as
/// empty.
pub open spec fn news_of(msg: InstantiateMsg) -> Seq<NewDenom> {
    match msg.new_denoms {
        None => Seq::empty(),
        Some(v) => v@,
    }
}

/// The manager identifier: the named one, or the sender.
pub open spec fn manager_id_of(msg: InstantiateMsg, sender: Seq<char>) -> Seq<char> {
    match msg.manager {
        None => sender,
        Some(m) => m@,
    }
}

/// Copies an optional string.
fn clone_opt_str(o: &Option<String>) -> (r: Option<String>)
    ensures
        r == *o,
{
    match o {
        None => None,
        Some(s) => Some(s.clone()),
    }
}

/// Builds the creation instruction for a new denomination, embedding its
/// bank metadata: base and display units, name, description and symbol.
pub fn create_denom_msg(subdenom: String, full_denom: String, denom: NewDenom) -> (r:
    TokenFactoryMsg)
    ensures
        r matches TokenFactoryMsg::CreateDenom { subdenom: sd, metadata },
        r matches TokenFactoryMsg::CreateDenom { subdenom: sd, metadata } ==> ({
            &&& sd == subdenom
            &&& metadata matches Some(md)
            &&& (metadata matches Some(md) ==> {
                &&& md.name == Some(denom.name)
                &&& md.description == denom.description
                &&& md.denom_units@.len() == 2
                &&& md.denom_units@[0].denom == full_denom
                &&& md.denom_units@[0].exponent == 0
                &&& md.denom_units@[0].aliases@.len() == 0
                &&& md.denom_units@[1].denom == denom.symbol
                &&& md.denom_units@[1].exponent == denom.decimals
                &&& md.denom_units@[1].aliases@.len() == 0
                &&& md.base == Some(full_denom)
                &&& md.display == Some(denom.symbol)
                &&& md.symbol == Some(denom.symbol)
            })
        }),
{
    let mut denom_units: Vec<DenomUnit> = Vec::new();
    denom_units.push(DenomUnit { denom: full_denom.clone(), exponent: 0, aliases: Vec::new() });
    denom_units.push(
        DenomUnit { denom: denom.symbol.clone(), exponent: denom.decimals, aliases: Vec::new() },
    );
    TokenFactoryMsg::CreateDenom {
        subdenom,
        metadata: Some(
            Metadata {
                name: Some(denom.name),
                description: denom.description,
                denom_units,
                base: Some(full_denom),
                display: Some(denom.symbol.clone()),
                symbol: Some(denom.symbol),
            },
        ),
    }
}

/// Builds one mint instruction.
pub fn mint_tokens_msg(address: String, denom: String, amount: u128) -> (r: TokenFactoryMsg)
    ensures
        r == (TokenFactoryMsg::MintTokens { denom, amount, mint_to_address: address }),
{
    TokenFactoryMsg::MintTokens { denom, amount, mint_to_address: address }
}

/// Everything instantiation promises.  Existing denominations must carry
/// the reserved prefix, every initial-balance address and the manager must
/// be well formed, and at least one denomination must come under
/// management; then the configuration and the creation and mint
/// instructions are exactly as described.
pub open spec fn core_instantiate_post(
    env: Seq<char>,
    sender: Seq<char>,
    msg: InstantiateMsg,
    r: Result<InstantiateResult, ContractError>,
) -> bool {
    let ex = existing_of(msg);
    let nds = news_of(msg);
    &&& (!all_prefixed(ex) ==> {
        &&& r matches Err(e)
        &&& (r matches Err(e) ==> e matches ContractError::InvalidDenom { denom, message } && (
        exists|i: int|
            0 <= i < ex.len() && !has_factory_prefix((#[trigger] ex[i])@) && denom@ == ex[i]@)
            && message@ == "Denom must start with 'factory/'"@)
    })
    &&& (all_prefixed(ex) && !all_addrs_valid(nds) ==> r == Err::<
        InstantiateResult,
        ContractError,
    >(ContractError::InvalidAddress))
    &&& (all_prefixed(ex) && all_addrs_valid(nds) && ex.len() + nds.len() == 0 ==> r == Err::<
        InstantiateResult,
        ContractError,
    >(ContractError::NoDenomsProvided))
    &&& (all_prefixed(ex) && all_addrs_valid(nds) && ex.len() + nds.len() > 0 && !valid_account_id(
        manager_id_of(msg, sender),
    ) ==> r == Err::<InstantiateResult, ContractError>(ContractError::InvalidAddress))
    &&& (all_prefixed(ex) && all_addrs_valid(nds) && ex.len() + nds.len() > 0 && valid_account_id(
        manager_id_of(msg, sender),
    ) ==> {
        &&& r matches Ok(out)
        &&& (r matches Ok(out) ==> {
            &&& out.config.manager@ == manager_id_of(msg, sender)
            &&& out.config.allowed_mint_addresses == msg.allowed_mint_addresses
            &&& str_views(out.config.denoms@) == str_views(ex) + Seq::new(
                nds.len(),
                |i: int| full_denom_of(env, nds[i].symbol@),
            )
            &&& out.denom_msgs@.len() == nds.len()
            &&& (forall|i: int|
                0 <= i < nds.len() ==> is_create_denom_for(
                    #[trigger] out.denom_msgs@[i],
                    env,
                    nds[i],
                ))
            &&& out.mint_msgs@.len() == mints_of(env, nds).len()
            &&& (forall|j: int|
                0 <= j < mints_of(env, nds).len() ==> is_mint_of(
                    #[trigger] out.mint_msgs@[j],
                    mints_of(env, nds)[j],
                ))
        })
    })
}

/// What instantiation produced: the configuration to persist and the
/// creation and initial-mint instructions to dispatch.
#[derive(Debug)]
pub struct InstantiateResult {
    pub config: Config,
    pub denom_msgs: Vec<TokenFactoryMsg>,
    pub mint_msgs: Vec<TokenFactoryMsg>,
}

/// Sets the middleware up: validates and adopts the existing
/// denominations, creates the new ones (lowercased symbol under this
/// contract's namespace) with their initial balances, and records manager
/// and whitelist.
#[verifier::loop_isolation(false)]
pub fn instantiate(contract_address: &String, sender: &String, msg: InstantiateMsg) -> (r: Result<
    InstantiateResult,
    ContractError,
>)
    ensures
        core_instantiate_post(contract_address@, sender@, msg, r),
{
    proof {
        reveal_strlit("factory/");
        reveal_strlit("/");
    }
    let ghost gmsg = msg;
    let InstantiateMsg { manager, allowed_mint_addresses, existing_denoms, new_denoms } = msg;
    let mut denoms: Vec<String> = match existing_denoms {
        None => Vec::new(),
        Some(v) => v,
    };
    let ghost ex = existing_of(gmsg);
    let ne = denoms.len();
    let mut i: usize = 0;
    while i < ne
        invariant
            i <= ne,
            ne == denoms@.len(),
            denoms@ == ex,
            forall|j: int| 0 <= j < i ==> has_factory_prefix((#[trigger] denoms@[j])@),
        decreases ne - i,
    {
        if !check_factory_prefix(denoms[i].as_str()) {
            proof {
                assert(!has_factory_prefix((ex[i as int])@));
            }
            return Err(
                ContractError::InvalidDenom {
                    denom: denoms[i].clone(),
                    message: String::from_str("Denom must start with 'factory/'"),
                },
            );
        }
        i += 1;
    }
    let mut news: Vec<NewDenom> = match new_denoms {
        None => Vec::new(),
        Some(v) => v,
    };
    let ghost nds = news_of(gmsg);
    let mut new_denom_msgs: Vec<TokenFactoryMsg> = Vec::new();
    let mut new_mint_msgs: Vec<TokenFactoryMsg> = Vec::new();
    let ghost env = contract_address@;
    let nn = news.len();
    let mut k: usize = 0;
    while k < nn
        invariant
            k <= nn,
            nn == nds.len(),
            news@ == nds.subrange(k as int, nn as int),
            all_prefixed(ex),
            "factory/"@ == factory_prefix_chars(),
            "/"@ == seq!['/'],
            env == contract_address@,
            all_addrs_valid(nds.subrange(0, k as int)),
            new_denom_msgs@.len() == k,
            forall|j: int|
                0 <= j < k ==> is_create_denom_for(#[trigger] new_denom_msgs@[j], env, nds[j]),
            new_mint_msgs@.len() == mints_of(env, nds.subrange(0, k as int)).len(),
            forall|j: int|
                0 <= j < new_mint_msgs@.len() ==> is_mint_of(
                    #[trigger] new_mint_msgs@[j],
                    mints_of(env, nds.subrange(0, k as int))[j],
                ),
            denoms@.len() == ex.len() + k,
            denoms@.subrange(0, ex.len() as int) == ex,
            forall|j: int|
                0 <= j < k ==> (#[trigger] denoms@[ex.len() + j])@ == full_denom_of(
                    env,
                    nds[j].symbol@,
                ),
        decreases nn - k,
    {
        let nd = news.remove(0);
        proof {
            assert(nd == nds[k as int]);
            assert(news@ =~= nds.subrange(k + 1, nn as int));
        }
        let subdenom = ascii_lowercase(nd.symbol.as_str());
        let mut full_denom = String::from_str("factory/");
        full_denom.append(contract_address.as_str());
        full_denom.append("/");
        full_denom.append(subdenom.as_str());
        proof {
            assert(full_denom@ =~= full_denom_of(env, nd.symbol@));
        }
        let ghost mints_pre = mints_of(env, nds.subrange(0, k as int));
        if let Some(bals) = &nd.initial_balances {
            let nb = bals.len();
            let mut b: usize = 0;
            while b < nb
                invariant
                    b <= nb,
                    nb == bals@.len(),
                    bals@ == init_bals(nds[k as int]),
                    0 <= k < nds.len(),
                    ex == existing_of(gmsg),
                    nds == news_of(gmsg),
                    all_prefixed(ex),
                    all_addrs_valid(nds.subrange(0, k as int)),
                    env == contract_address@,
                    full_denom@ == full_denom_of(env, nds[k as int].symbol@),
                    forall|j: int| 0 <= j < b ==> valid_account_id((#[trigger] bals@[j]).address@),
                    new_mint_msgs@.len() == mints_pre.len() + b,
                    forall|j: int|
                        0 <= j < mints_pre.len() ==> is_mint_of(
                            #[trigger] new_mint_msgs@[j],
                            mints_pre[j],
                        ),
                    forall|j: int|
                        0 <= j < b ==> is_mint_of(
                            #[trigger] new_mint_msgs@[mints_pre.len() + j],
                            mints_of_one(env, nds[k as int])[j],
                        ),
                decreases nb - b,
            {
                if !check_account_id(bals[b].address.as_str()) {
                    proof {
                        assert(!all_addrs_valid(nds)) by {
                            assert(init_bals(nds[k as int])[b as int].address@ == bals@[
                                b as int].address@);
                        }
                    }
                    return Err(ContractError::InvalidAddress);
                }
                new_mint_msgs.push(
                    mint_tokens_msg(bals[b].address.clone(), full_denom.clone(), bals[b].amount),
                );
                b += 1;
            }
        }
        proof {
            let one = mints_of_one(env, nds[k as int]);
            let m2 = mints_of(env, nds.subrange(0, k + 1));
            assert(nds.subrange(0, k + 1).drop_last() =~= nds.subrange(0, k as int));
            assert(nds.subrange(0, k + 1).last() == nds[k as int]);
            if nd.initial_balances is None {
                assert(init_bals(nds[k as int]) =~= Seq::<InitialBalance>::empty());
                assert(one =~= Seq::<MintView>::empty());
            }
            assert(m2 == mints_pre + one);
            assert(new_mint_msgs@.len() == m2.len());
            assert forall|j: int| 0 <= j < new_mint_msgs@.len() implies is_mint_of(
                #[trigger] new_mint_msgs@[j],
                mints_of(env, nds.subrange(0, k + 1))[j],
            ) by {
                if j < mints_pre.len() {
                    assert((mints_pre + one)[j] == mints_pre[j]);
                    assert(is_mint_of(new_mint_msgs@[j], mints_pre[j]));
                } else {
                    assert((mints_pre + one)[j] == one[j - mints_pre.len()]);
                    assert(new_mint_msgs@[mints_pre.len() + (j - mints_pre.len())]
                        == new_mint_msgs@[j]);
                    assert(is_mint_of(
                        new_mint_msgs@[j],
                        mints_of_one(env, nds[k as int])[j - mints_pre.len()],
                    ));
                }
            }
            assert(all_addrs_valid(nds.subrange(0, k + 1))) by {
                assert forall|x: int, j: int|
                    0 <= x < k + 1 && 0 <= j < init_bals(nds.subrange(0, k + 1)[x]).len() implies
                    valid_account_id(
                    (#[trigger] init_bals(nds.subrange(0, k + 1)[x])[j]).address@,
                ) by {
                    assert(nds.subrange(0, k + 1)[x] == nds.subrange(0, k as int)[x] || x == k);
                }
            }
        }
        let ghost full_view = full_denom@;
        new_denom_msgs.push(create_denom_msg(subdenom, full_denom.clone(), nd));
        denoms.push(full_denom);
        proof {
            assert(denoms@.subrange(0, ex.len() as int) =~= ex);
        }
        k += 1;
    }
    proof {
        assert(nds.subrange(0, nn as int) =~= nds);
    }
    if denoms.len() == 0 {
        return Err(ContractError::NoDenomsProvided);
    }
    let manager: String = match manager {
        Some(m) => m,
        None => sender.clone(),
    };
    if !check_account_id(manager.as_str()) {
        return Err(ContractError::InvalidAddress);
    }
    proof {
        let news_full = Seq::new(nds.len(), |i: int| full_denom_of(env, nds[i].symbol@));
        assert forall|j: int| 0 <= j < denoms@.len() implies #[trigger] str_views(denoms@)[j] == (
        str_views(ex) + news_full)[j] by {
            if j < ex.len() {
                assert(denoms@.subrange(0, ex.len() as int)[j] == denoms@[j]);
                assert(str_views(ex)[j] == ex[j]@);
            } else {
                assert((denoms@[ex.len() + (j - ex.len())])@ == full_denom_of(
                    env,
                    nds[j - ex.len()].symbol@,
                ));
            }
        }
        assert(str_views(denoms@) =~= str_views(ex) + Seq::new(
            nds.len(),
            |i: int| full_denom_of(env, nds[i].symbol@),
        ));
    }
    Ok(
        InstantiateResult {
            config: Config { manager, allowed_mint_addresses, denoms },
            denom_msgs: new_denom_msgs,
            mint_msgs: new_mint_msgs,
        },
    )
}

/// Handles one middleware command.  `contract_address` is this contract's
/// own address; `from_balances` is the bank balance of the `BurnFrom`
/// target, queried by the host before dispatch and ignored by every other
/// command.
pub fn execute(
    config: &mut Config,
    contract_address: &String,
    sender: &String,
    funds: &Vec<Coin>,
    msg: ExecuteMsg,
    from_balances: &Vec<Coin>,
) -> (r: Result<Vec<CoreMsg>, ContractError>)
    ensures
        core_execute_post(
            *old(config),
            *final(config),
            contract_address@,
            sender@,
            funds@,
            msg,
            from_balances@,
            r,
        ),
{
    match msg {
        ExecuteMsg::Burn {} => execute_burn(config, contract_address, sender, funds),
        ExecuteMsg::Mint { address, denom } => {
            match execute_mint(config, sender, &address, &denom) {
                Ok(msgs) => Ok(wrap_tokens(msgs)),
                Err(e) => Err(e),
            }
        },
        ExecuteMsg::BurnFrom { from, denom } => {
            if let Err(e) = is_contract_manager(config, sender) {
                return Err(e);
            }
            let n = from_balances.len();
            let mut found = false;
            let mut i: usize = 0;
            while i < n
                invariant
                    i <= n,
                    n == from_balances@.len(),
                    found == exists|l: int|
                        0 <= l < i && (#[trigger] from_balances@[l]).denom@ == denom.denom@,
                decreases n - i,
            {
                if from_balances[i].denom.eq(&denom.denom) {
                    found = true;
                }
                i += 1;
            }
            if !found {
                return Err(
                    ContractError::InvalidDenom {
                        denom: denom.denom,
                        message: String::from_str("Denom not found in balance"),
                    },
                );
            }
            let mut msgs: Vec<CoreMsg> = Vec::new();
            msgs.push(
                CoreMsg::Token(
                    TokenFactoryMsg::BurnTokens {
                        denom: denom.denom,
                        amount: denom.amount,
                        burn_from_address: from,
                    },
                ),
            );
            Ok(msgs)
        },
        ExecuteMsg::TransferAdmin { denom, new_address } => {
            match execute_transfer_admin(config, sender, denom, new_address) {
                Ok(m) => {
                    let mut msgs: Vec<CoreMsg> = Vec::new();
                    msgs.push(CoreMsg::Token(m));
                    Ok(msgs)
                },
                Err(e) => Err(e),
            }
        },
        ExecuteMsg::ForceTransfer { from, to, denom } => {
            if let Err(e) = is_contract_manager(config, sender) {
                return Err(e);
            }
            let mut msgs: Vec<CoreMsg> = Vec::new();
            msgs.push(
                CoreMsg::Token(
                    TokenFactoryMsg::ForceTransfer {
                        denom: denom.denom,
                        amount: denom.amount,
                        from_address: from,
                        to_address: to,
                    },
                ),
            );
            Ok(msgs)
        },
        ExecuteMsg::SetMetadata { denom, metadata } => {
            if let Err(e) = is_contract_manager(config, sender) {
                return Err(e);
            }
            let mut msgs: Vec<CoreMsg> = Vec::new();
            msgs.push(CoreMsg::Token(TokenFactoryMsg::SetMetadata { denom, metadata }));
            Ok(msgs)
        },
        ExecuteMsg::AddWhitelist { addresses } => {
            if let Err(e) = is_contract_manager(config, sender) {
                return Err(e);
            }
            push_unique(&mut config.allowed_mint_addresses, &addresses);
            Ok(Vec::new())
        },
        ExecuteMsg::RemoveWhitelist { addresses } => {
            if let Err(e) = is_contract_manager(config, sender) {
                return Err(e);
            }
            let kept = retain_not_in(&config.allowed_mint_addresses, &addresses);
            config.allowed_mint_addresses = kept;
            Ok(Vec::new())
        },
        ExecuteMsg::AddDenom { denoms } => {
            if let Err(e) = is_contract_manager(config, sender) {
                return Err(e);
            }
            push_unique(&mut config.denoms, &denoms);
            Ok(Vec::new())
        },
        ExecuteMsg::RemoveDenom { denoms } => {
            if let Err(e) = is_contract_manager(config, sender) {
                return Err(e);
            }
            let kept = retain_not_in(&config.denoms, &denoms);
            config.denoms = kept;
            Ok(Vec::new())
        },
    }
}

} // verus!
