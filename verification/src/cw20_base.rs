//! The migrating token contract: a legacy fungible-token ledger together
//! with the one-time configuration gate, the account enumerator and the
//! paginated migration engine that moves every balance into the external
//! issuance system exactly once.

use vstd::prelude::*;
use vstd::string::StringExecFns;
use vstd::utf8::encode_utf8;
use crate::account::{valid_account_id, check_account_id};
use crate::denom::{has_factory_prefix, check_factory_prefix};
use crate::error::ContractError;
use crate::model::{
    DEFAULT_LIMIT, MAX_LIMIT, LedgerView, start_of, page_end, page_of, sum_range, zero_range,
    step_start, step_end, step_page, step_total, step_state, sorted_keys, lemma_start_from_unique,
    lemma_sum_extend, lemma_sum_mono,
};
use crate::order::{lex_lt, str_lt};

verus! {

/// Who may issue more of the legacy token, and up to what cap.
#[derive(Debug)]
pub struct MinterData {
    pub minter: String,
    /// How many more tokens the minter may issue.
    pub cap: Option<u128>,
}

/// Metadata and aggregate supply counter of the legacy token.
#[derive(Debug)]
pub struct TokenInfo {
    pub name: String,
    pub symbol: String,
    pub decimals: u8,
    pub total_supply: u128,
    pub mint: Option<MinterData>,
}

impl TokenInfo {
    pub fn get_cap(&self) -> (r: Option<u128>)
        ensures
            r == match self.mint {
                Some(m) => m.cap,
                None => None::<u128>,
            },
    {
        match &self.mint {
            Some(m) => m.cap,
            None => None,
        }
    }
}

/// The pagination cursor state written once by the configuration gate and
/// advanced by every non-empty migration batch.
#[derive(Debug)]
pub struct MigrateConfig {
    /// The external issuance authority every batch addresses.
    pub tf_core_address: String,
    /// The namespaced denomination the authority issues.
    pub tf_denom: String,
    /// The last migrated account; batches resume strictly after it.
    pub start_after_addr: Option<String>,
    /// Whether a migrated balance is zeroed in the legacy ledger.
    pub burn_cw20_balances: bool,
}

/// One ledger entry: an account identifier and its balance.
#[derive(Debug)]
pub struct AccountBalance {
    pub address: String,
    pub amount: u128,
}

/// A spending allowance; all of these are purged by the configuration gate.
#[derive(Debug)]
pub struct AllowanceEntry {
    pub owner: String,
    pub spender: String,
    pub allowance: u128,
}

/// An embedded logo, stored on chain.
#[derive(Debug)]
pub enum EmbeddedLogo {
    Svg(Vec<u8>),
    Png(Vec<u8>),
}

/// The token logo: a link or embedded data.
#[derive(Debug)]
pub enum Logo {
    Url(String),
    Embedded(EmbeddedLogo),
}

/// How the logo is advertised in marketing metadata.
#[derive(Debug)]
pub enum LogoInfo {
    Url(String),
    Embedded,
}

/// Marketing metadata of the token.
#[derive(Debug)]
pub struct MarketingInfoResponse {
    pub project: Option<String>,
    pub description: Option<String>,
    pub marketing: Option<String>,
    pub logo: Option<LogoInfo>,
}

/// Embedded logo data handed out by the logo query.
#[derive(Debug)]
pub struct DownloadLogoResponse {
    pub mime_type: String,
    pub data: Vec<u8>,
}

/// Answer of the token-info query.
#[derive(Debug)]
pub struct TokenInfoResponse {
    pub name: String,
    pub symbol: String,
    pub decimals: u8,
    pub total_supply: u128,
}

/// Answer of the minter query.
#[derive(Debug)]
pub struct MinterResponse {
    pub minter: String,
    pub cap: Option<u128>,
}

/// Answer of the account enumerator.
#[derive(Debug)]
pub struct AllAccountsResponse {
    pub accounts: Vec<String>,
}

/// One outbound issuance instruction: ask `authority` to issue `amount` of
/// `denom` to `recipient`.  Dispatched after the batch commits; the engine
/// never observes the outcome.
#[derive(Debug)]
pub struct IssueMsg {
    pub authority: String,
    pub recipient: String,
    pub denom: String,
    pub amount: u128,
}

/// What one migration batch did.
#[derive(Debug)]
pub struct BatchResult {
    /// The migrated accounts, in enumeration order.
    pub migrated_accounts: Vec<String>,
    /// Sum of the migrated balances.
    pub total_amount_migrated: u128,
    /// One issuance instruction per migrated account, in the same order.
    pub outbound_instructions: Vec<IssueMsg>,
    /// The cursor after the batch, for auditability.
    pub last_migrated_account: Option<String>,
}

/// The whole persisted state of the contract, passed explicitly into every
/// operation.
#[derive(Debug)]
pub struct Cw20State {
    pub token_info: TokenInfo,
    /// Present exactly from the moment the configuration gate ran.
    pub migration: Option<MigrateConfig>,
    /// The balance ledger, strictly ascending by account identifier.
    pub balances: Vec<AccountBalance>,
    pub allowances: Vec<AllowanceEntry>,
    pub marketing_info: Option<MarketingInfoResponse>,
    pub logo: Option<Logo>,
}

/// View of an optional account identifier.
pub open spec fn opt_view(o: Option<String>) -> Option<Seq<char>> {
    match o {
        None => None,
        Some(s) => Some(s@),
    }
}

impl Cw20State {
    /// The ledger's account identifiers in storage order.
    pub open spec fn keys(&self) -> Seq<Seq<char>> {
        self.balances@.map(|i: int, b: AccountBalance| b.address@)
    }

    /// The ledger's balances, parallel to `keys`.
    pub open spec fn amounts(&self) -> Seq<u128> {
        self.balances@.map(|i: int, b: AccountBalance| b.amount)
    }

    /// The ledger is strictly ascending by account identifier; everything
    /// about pagination rests on this.
    pub open spec fn wf(&self) -> bool {
        sorted_keys(self.keys())
    }

    /// What the migration engine sees of this state.  Meaningful only once
    /// `migration` is present.
    pub open spec fn ledger_view(&self) -> LedgerView {
        LedgerView {
            keys: self.keys(),
            amounts: self.amounts(),
            supply: self.token_info.total_supply,
            cursor: opt_view(self.migration->Some_0.start_after_addr),
            burn: self.migration->Some_0.burn_cw20_balances,
        }
    }

    /// Index of the first ledger entry strictly after `after`.
    fn find_start(&self, after: &Option<String>) -> (s: usize)
        ensures
            s as int == start_of(self.keys(), opt_view(*after)),
            s <= self.balances@.len(),
    {
        match after {
            None => 0,
            Some(a) => {
                let n = self.balances.len();
                let mut i: usize = 0;
                while i < n && !str_lt(a.as_str(), self.balances[i].address.as_str())
                    invariant
                        i <= n,
                        n == self.balances@.len(),
                        forall|j: int| 0 <= j < i ==> !lex_lt(a@, #[trigger] self.keys()[j]),
                    decreases n - i,
                {
                    proof {
                        assert(self.keys()[i as int] == self.balances@[i as int].address@);
                    }
                    i += 1;
                }
                proof {
                    if (i as int) < self.keys().len() {
                        assert(self.keys()[i as int] == self.balances@[i as int].address@);
                    }
                    lemma_start_from_unique(self.keys(), a@, i as int);
                }
                i
            },
        }
    }

    /// The account enumerator: the page of account identifiers strictly
    /// after `start_after`, in ledger order, clamped to the page-size cap.
    /// A pure read; an empty page means the ledger is exhausted.
    pub fn query_all_accounts(&self, start_after: Option<String>, limit: Option<u32>) -> (r:
        AllAccountsResponse)
        ensures
            r.accounts.deep_view() == page_of(self.keys(), opt_view(start_after), limit),
    {
        let s = self.find_start(&start_after);
        let n = self.balances.len();
        let eff: u32 = match limit {
            None => DEFAULT_LIMIT,
            Some(v) => if v > MAX_LIMIT {
                MAX_LIMIT
            } else {
                v
            },
        };
        let e: usize = if n - s > eff as usize {
            s + eff as usize
        } else {
            n
        };
        proof {
            assert(e as int == page_end(self.keys(), opt_view(start_after), limit));
        }
        let mut accounts: Vec<String> = Vec::new();
        let mut i: usize = s;
        proof {
            assert(accounts.deep_view() =~= self.keys().subrange(s as int, s as int));
        }
        while i < e
            invariant
                s <= i <= e <= n,
                n == self.balances@.len(),
                accounts.deep_view() == self.keys().subrange(s as int, i as int),
            decreases e - i,
        {
            let a = self.balances[i].address.clone();
            let ghost pre_seq = accounts@;
            let ghost pre_dv = accounts.deep_view();
            accounts.push(a);
            proof {
                assert(accounts@ == pre_seq.push(a));
                assert(pre_dv.len() == pre_seq.len());
                assert(pre_seq.len() == i - s);
                assert(accounts@.len() == i + 1 - s);
                assert(accounts.deep_view().len() == accounts@.len());
                assert forall|j: int| 0 <= j < i + 1 - s implies #[trigger] accounts.deep_view()[j]
                    == self.keys().subrange(s as int, i + 1)[j] by {
                    assert(accounts.deep_view()[j] == accounts@[j].deep_view());
                    if j < i - s {
                        assert(accounts@[j] == pre_seq[j]);
                        assert(pre_dv[j] == pre_seq[j].deep_view());
                        assert(pre_dv[j] == self.keys().subrange(s as int, i as int)[j]);
                    } else {
                        assert(accounts@[j] == a);
                        assert(self.keys()[i as int] == self.balances@[i as int].address@);
                    }
                }
                assert(accounts.deep_view() =~= self.keys().subrange(s as int, i + 1));
            }
            i += 1;
        }
        AllAccountsResponse { accounts }
    }
}

/// Copies an optional account identifier.
fn clone_opt_string(o: &Option<String>) -> (r: Option<String>)
    ensures
        r == *o,
{
    match o {
        None => None,
        Some(s) => Some(s.clone()),
    }
}

/// Everything one migration batch promises, relating the state before
/// (`pre`) and after (`post`) to the returned value.
///
/// The cases partition the inputs: an unconfigured contract fails with
/// `NotConfigured`; an exhausted ledger is a no-op success; a batch whose
/// total exceeds the supply counter fails with `SupplyUnderflow` and changes
/// nothing; otherwise the ledger performs exactly the `step_state`
/// transition of the model and the result lists the page, its total and one
/// issuance instruction per account, in enumeration order.
pub open spec fn batch_post(
    pre: Cw20State,
    post: Cw20State,
    limit: Option<u32>,
    r: Result<BatchResult, ContractError>,
) -> bool {
    match pre.migration {
        None => r == Err::<BatchResult, ContractError>(ContractError::NotConfigured) && post
            == pre,
        Some(cfg) => {
            let v0 = pre.ledger_view();
            let s = step_start(v0);
            let e = step_end(v0, limit);
            let tot = step_total(v0, limit);
            &&& (s == e ==> {
                &&& r matches Ok(b)
                &&& post == pre
                &&& (r matches Ok(b) ==> {
                    &&& b.migrated_accounts@.len() == 0
                    &&& b.total_amount_migrated == 0
                    &&& b.outbound_instructions@.len() == 0
                    &&& opt_view(b.last_migrated_account) == v0.cursor
                })
            })
            &&& (s < e && tot > v0.supply ==> r == Err::<BatchResult, ContractError>(
                ContractError::SupplyUnderflow,
            ) && post == pre)
            &&& (s < e && tot <= v0.supply ==> {
                &&& r matches Ok(b)
                &&& (r matches Ok(b) ==> {
                    &&& b.migrated_accounts.deep_view() == step_page(v0, limit)
                    &&& b.total_amount_migrated as int == tot
                    &&& b.outbound_instructions@.len() == e - s
                    &&& (forall|j: int|
                        0 <= j < e - s ==> {
                            let m = #[trigger] b.outbound_instructions@[j];
                            &&& m.authority@ == cfg.tf_core_address@
                            &&& m.recipient@ == v0.keys[s + j]
                            &&& m.denom@ == cfg.tf_denom@
                            &&& m.amount == v0.amounts[s + j]
                        })
                    &&& opt_view(b.last_migrated_account) == Some(v0.keys[e - 1])
                })
                &&& post.ledger_view() == step_state(v0, limit)
                &&& post.migration matches Some(c2)
                &&& (post.migration matches Some(c2) ==> {
                    &&& c2.tf_core_address@ == cfg.tf_core_address@
                    &&& c2.tf_denom@ == cfg.tf_denom@
                    &&& c2.burn_cw20_balances == cfg.burn_cw20_balances
                })
                &&& post.token_info.name == pre.token_info.name
                &&& post.token_info.symbol == pre.token_info.symbol
                &&& post.token_info.decimals == pre.token_info.decimals
                &&& post.token_info.mint == pre.token_info.mint
                &&& post.allowances == pre.allowances
                &&& post.marketing_info == pre.marketing_info
                &&& post.logo == pre.logo
                &&& post.balances@.len() == pre.balances@.len()
                &&& (forall|j: int|
                    0 <= j < post.balances@.len() ==> (#[trigger] post.balances@[j]).address
                        == pre.balances@[j].address)
            })
        },
    }
}

impl Cw20State {
    /// The migration engine.  One permissionless batch: enumerate the next
    /// page after the cursor, read each balance, emit one issuance
    /// instruction per account, optionally zero the migrated balances,
    /// decrement the aggregate supply counter by the batch total and advance
    /// the cursor — all of it, or, on error, none of it.
    pub fn migrate_batch(&mut self, limit: Option<u32>) -> (r: Result<BatchResult, ContractError>)
        requires
            old(self).wf(),
        ensures
            final(self).wf(),
            batch_post(*old(self), *final(self), limit, r),
    {
        let (authority, denom, after, burn): (String, String, Option<String>, bool) = match &self
            .migration {
            None => {
                return Err(ContractError::NotConfigured);
            },
            Some(cfg) => (
                cfg.tf_core_address.clone(),
                cfg.tf_denom.clone(),
                clone_opt_string(&cfg.start_after_addr),
                cfg.burn_cw20_balances,
            ),
        };
        let ghost v0 = self.ledger_view();
        proof {
            assert(opt_view(after) == v0.cursor);
        }
        let s = self.find_start(&after);
        let n = self.balances.len();
        let eff: u32 = match limit {
            None => DEFAULT_LIMIT,
            Some(v) => if v > MAX_LIMIT {
                MAX_LIMIT
            } else {
                v
            },
        };
        let e: usize = if n - s > eff as usize {
            s + eff as usize
        } else {
            n
        };
        proof {
            assert(s as int == step_start(v0));
            assert(e as int == step_end(v0, limit));
        }
        if s == e {
            return Ok(
                BatchResult {
                    migrated_accounts: Vec::new(),
                    total_amount_migrated: 0,
                    outbound_instructions: Vec::new(),
                    last_migrated_account: after,
                },
            );
        }
        // First pass, read-only: collect the page, its issuance instructions
        // and the running total, so that an error leaves the state untouched.
        let mut accounts: Vec<String> = Vec::new();
        let mut msgs: Vec<IssueMsg> = Vec::new();
        let mut total: u128 = 0;
        let mut i: usize = s;
        proof {
            assert(accounts.deep_view() =~= self.keys().subrange(s as int, s as int));
        }
        while i < e
            invariant
                s <= i <= e <= n,
                n == self.balances@.len(),
                *self == *old(self),
                old(self).wf(),
                old(self).migration is Some,
                v0 == self.ledger_view(),
                s as int == step_start(v0),
                e as int == step_end(v0, limit),
                total as int == sum_range(self.amounts(), s as int, i as int),
                accounts.deep_view() == self.keys().subrange(s as int, i as int),
                msgs@.len() == i - s,
                forall|j: int|
                    0 <= j < i - s ==> {
                        let m = #[trigger] msgs@[j];
                        &&& m.authority@ == authority@
                        &&& m.recipient@ == self.keys()[s + j]
                        &&& m.denom@ == denom@
                        &&& m.amount == self.amounts()[s + j]
                    },
            decreases e - i,
        {
            let bal = self.balances[i].amount;
            proof {
                assert(self.amounts()[i as int] == self.balances@[i as int].amount);
                lemma_sum_extend(self.amounts(), s as int, i as int);
            }
            total = match total.checked_add(bal) {
                Some(t) => t,
                None => {
                    proof {
                        lemma_sum_mono(self.amounts(), s as int, i + 1, e as int);
                    }
                    return Err(ContractError::SupplyUnderflow);
                },
            };
            let a = self.balances[i].address.clone();
            let ghost pre_seq = accounts@;
            let ghost pre_dv = accounts.deep_view();
            accounts.push(a);
            proof {
                assert(accounts@ == pre_seq.push(a));
                assert(pre_dv.len() == pre_seq.len());
                assert(accounts.deep_view().len() == accounts@.len());
                assert forall|j: int| 0 <= j < i + 1 - s implies #[trigger] accounts.deep_view()[j]
                    == self.keys().subrange(s as int, i + 1)[j] by {
                    assert(accounts.deep_view()[j] == accounts@[j].deep_view());
                    if j < i - s {
                        assert(accounts@[j] == pre_seq[j]);
                        assert(pre_dv[j] == pre_seq[j].deep_view());
                        assert(pre_dv[j] == self.keys().subrange(s as int, i as int)[j]);
                    } else {
                        assert(self.keys()[i as int] == self.balances@[i as int].address@);
                    }
                }
                assert(accounts.deep_view() =~= self.keys().subrange(s as int, i + 1));
            }
            let recipient = self.balances[i].address.clone();
            msgs.push(
                IssueMsg {
                    authority: authority.clone(),
                    recipient,
                    denom: denom.clone(),
                    amount: bal,
                },
            );
            proof {
                assert(self.keys()[i as int] == self.balances@[i as int].address@);
            }
            i += 1;
        }
        // The whole page is read; refuse the batch if it would drive the
        // supply counter negative.
        if total > self.token_info.total_supply {
            return Err(ContractError::SupplyUnderflow);
        }
        // Commit: optionally zero the migrated balances, decrement the
        // counter, advance the cursor.
        if burn {
            let mut j: usize = s;
            while j < e
                invariant
                    s <= j <= e <= n,
                    n == self.balances@.len(),
                    self.token_info == old(self).token_info,
                    self.migration == old(self).migration,
                    self.allowances == old(self).allowances,
                    self.marketing_info == old(self).marketing_info,
                    self.logo == old(self).logo,
                    forall|k: int|
                        0 <= k < n ==> (#[trigger] self.balances@[k]).address == old(
                            self,
                        ).balances@[k].address,
                    forall|k: int|
                        0 <= k < n ==> (#[trigger] self.balances@[k]).amount == if s <= k < j {
                            0u128
                        } else {
                            old(self).balances@[k].amount
                        },
                decreases e - j,
            {
                self.balances[j].amount = 0;
                j += 1;
            }
        }
        self.token_info.total_supply = self.token_info.total_supply - total;
        let last = self.balances[e - 1].address.clone();
        self.migration = Some(
            MigrateConfig {
                tf_core_address: authority,
                tf_denom: denom,
                start_after_addr: Some(last.clone()),
                burn_cw20_balances: burn,
            },
        );
        proof {
            let vf = self.ledger_view();
            let vs = step_state(v0, limit);
            assert(vf.keys =~= vs.keys) by {
                assert forall|k: int| 0 <= k < n implies #[trigger] self.keys()[k]
                    == v0.keys[k] by {
                    assert(self.keys()[k] == self.balances@[k].address@);
                    assert(v0.keys[k] == old(self).balances@[k].address@);
                }
            }
            assert(vf.amounts =~= vs.amounts) by {
                assert forall|k: int| 0 <= k < n implies #[trigger] self.amounts()[k]
                    == vs.amounts[k] by {
                    assert(self.amounts()[k] == self.balances@[k].amount);
                    assert(v0.amounts[k] == old(self).balances@[k].amount);
                }
            }
            assert(last@ == v0.keys[e - 1]);
            assert(vf =~= vs);
            assert(self.wf()) by {
                assert(self.keys() =~= v0.keys);
            }
        }
        Ok(
            BatchResult {
                migrated_accounts: accounts,
                total_amount_migrated: total,
                outbound_instructions: msgs,
                last_migrated_account: Some(last),
            },
        )
    }

    /// Entry point for execution commands; migrating a batch is
    /// deliberately permissionless, so progress never depends on one
    /// operator.
    pub fn execute(&mut self, msg: ExecuteMsg) -> (r: Result<BatchResult, ContractError>)
        requires
            old(self).wf(),
        ensures
            final(self).wf(),
            match msg {
                ExecuteMsg::MigrateTokens { limit } => batch_post(
                    *old(self),
                    *final(self),
                    limit,
                    r,
                ),
            },
    {
        match msg {
            ExecuteMsg::MigrateTokens { limit } => self.migrate_batch(limit),
        }
    }
}

/// Execution commands of the migrating token contract.
#[derive(Debug)]
pub enum ExecuteMsg {
    /// Migrate the next page of at most `limit` accounts.
    MigrateTokens { limit: Option<u32> },
}

/// The configuration command: where migrated balances are issued, under
/// which denomination, and whether the legacy balances are zeroed.
#[derive(Debug)]
pub struct MigrateMsg {
    pub tf_core_address: String,
    pub tf_denom: String,
    pub burn_cw20_balances: bool,
}

impl Cw20State {
    /// The configuration gate.  Validates the destination authority and the
    /// namespaced denomination, persists the pagination cursor state with a
    /// fresh cursor, and irreversibly purges all spending allowances.  The
    /// host's version guard keeps it from running twice after success; a
    /// failed run changes nothing and may be retried.
    pub fn migrate(&mut self, msg: MigrateMsg) -> (r: Result<(), ContractError>)
        ensures
            !valid_account_id(msg.tf_core_address@) ==> r == Err::<(), ContractError>(
                ContractError::InvalidAddress,
            ) && *final(self) == *old(self),
            valid_account_id(msg.tf_core_address@) && !has_factory_prefix(msg.tf_denom@) ==> {
                &&& r matches Err(err)
                &&& (r matches Err(err) ==> err matches ContractError::InvalidDenom {
                    denom,
                    message,
                } && denom@ == msg.tf_denom@ && message@ == "Denom must start with 'factory/'"@)
                &&& *final(self) == *old(self)
            },
            valid_account_id(msg.tf_core_address@) && has_factory_prefix(msg.tf_denom@) ==> {
                &&& r == Ok::<(), ContractError>(())
                &&& final(self).migration == Some(
                    MigrateConfig {
                        tf_core_address: msg.tf_core_address,
                        tf_denom: msg.tf_denom,
                        start_after_addr: None,
                        burn_cw20_balances: msg.burn_cw20_balances,
                    },
                )
                &&& final(self).allowances@ == Seq::<AllowanceEntry>::empty()
                &&& final(self).balances == old(self).balances
                &&& final(self).token_info == old(self).token_info
                &&& final(self).marketing_info == old(self).marketing_info
                &&& final(self).logo == old(self).logo
            },
    {
        if !check_account_id(msg.tf_core_address.as_str()) {
            return Err(ContractError::InvalidAddress);
        }
        if !check_factory_prefix(msg.tf_denom.as_str()) {
            return Err(
                ContractError::InvalidDenom {
                    denom: msg.tf_denom,
                    message: String::from_str("Denom must start with 'factory/'"),
                },
            );
        }
        self.migration = Some(
            MigrateConfig {
                tf_core_address: msg.tf_core_address,
                tf_denom: msg.tf_denom,
                start_after_addr: None,
                burn_cw20_balances: msg.burn_cw20_balances,
            },
        );
        // Spending allowances are meaningless after migration; drop them all.
        self.allowances = Vec::new();
        Ok(())
    }

    /// Token metadata and the current aggregate supply counter.
    pub fn query_token_info(&self) -> (r: TokenInfoResponse)
        ensures
            r.name == self.token_info.name,
            r.symbol == self.token_info.symbol,
            r.decimals == self.token_info.decimals,
            r.total_supply == self.token_info.total_supply,
    {
        TokenInfoResponse {
            name: self.token_info.name.clone(),
            symbol: self.token_info.symbol.clone(),
            decimals: self.token_info.decimals,
            total_supply: self.token_info.total_supply,
        }
    }

    /// The embedded logo, if one is stored on chain; a missing logo and a
    /// link-only logo both report that no download exists.
    pub fn query_download_logo(&self) -> (r: Result<DownloadLogoResponse, ContractError>)
        ensures
            match self.logo {
                Some(Logo::Embedded(EmbeddedLogo::Svg(data))) => {
                    &&& r matches Ok(d)
                    &&& (r matches Ok(d) ==> d.mime_type@ == "image/svg+xml"@ && d.data@ == data@)
                },
                Some(Logo::Embedded(EmbeddedLogo::Png(data))) => {
                    &&& r matches Ok(d)
                    &&& (r matches Ok(d) ==> d.mime_type@ == "image/png"@ && d.data@ == data@)
                },
                _ => {
                    &&& r matches Err(err)
                    &&& (r matches Err(err) ==> err matches ContractError::NotFound { what }
                        && what@ == "logo"@)
                },
            },
    {
        match &self.logo {
            Some(Logo::Embedded(EmbeddedLogo::Svg(data))) => Ok(
                DownloadLogoResponse {
                    mime_type: String::from_str("image/svg+xml"),
                    data: data.clone(),
                },
            ),
            Some(Logo::Embedded(EmbeddedLogo::Png(data))) => Ok(
                DownloadLogoResponse {
                    mime_type: String::from_str("image/png"),
                    data: data.clone(),
                },
            ),
            _ => Err(ContractError::NotFound { what: String::from_str("logo") }),
        }
    }

    /// Nobody may mint the legacy token any more.
    pub fn query_minter(&self) -> (r: Option<MinterResponse>)
        ensures
            r is None,
    {
        None
    }

    /// The stored marketing metadata, or an all-empty answer if none is
    /// stored.
    pub fn query_marketing_info(&self) -> (r: MarketingInfoResponse)
        ensures
            match self.marketing_info {
                Some(m) => r.project == m.project && r.description == m.description && r.marketing
                    == m.marketing && r.logo == m.logo,
                None => r.project is None && r.description is None && r.marketing is None && r.logo
                    is None,
            },
    {
        match &self.marketing_info {
            Some(m) => MarketingInfoResponse {
                project: clone_opt_string(&m.project),
                description: clone_opt_string(&m.description),
                marketing: clone_opt_string(&m.marketing),
                logo: match &m.logo {
                    None => None,
                    Some(LogoInfo::Embedded) => Some(LogoInfo::Embedded),
                    Some(LogoInfo::Url(u)) => Some(LogoInfo::Url(u.clone())),
                },
            },
            None => MarketingInfoResponse {
                project: None,
                description: None,
                marketing: None,
                logo: None,
            },
        }
    }
}

/// Direct instantiation is refused: this contract only comes into being by
/// migrating an existing deployment.
pub fn instantiate(_msg: InstantiateMsg) -> (r: Result<(), ContractError>)
    ensures
        r == Err::<(), ContractError>(ContractError::CannotInstantiate),
{
    Err(ContractError::CannotInstantiate)
}

/// An initial holder of the legacy token.
#[derive(Debug)]
pub struct Cw20Coin {
    pub address: String,
    pub amount: u128,
}

/// Marketing metadata supplied at instantiation.
#[derive(Debug)]
pub struct InstantiateMarketingInfo {
    pub project: Option<String>,
    pub description: Option<String>,
    pub marketing: Option<String>,
    pub logo: Option<Logo>,
}

/// The instantiation message of the legacy token contract.
#[derive(Debug)]
pub struct InstantiateMsg {
    pub name: String,
    pub symbol: String,
    pub decimals: u8,
    pub initial_balances: Vec<Cw20Coin>,
    pub mint: Option<MinterResponse>,
    pub marketing: Option<InstantiateMarketingInfo>,
}

/// A token name is 3 to 50 bytes of UTF-8.
pub open spec fn spec_valid_name(s: Seq<char>) -> bool {
    3 <= encode_utf8(s).len() <= 50
}

/// A byte admitted in a ticker symbol: `-`, or an ASCII letter.
pub open spec fn is_symbol_byte(b: u8) -> bool {
    b == 45 || (65 <= b <= 90) || (97 <= b <= 122)
}

/// A ticker symbol is 3 to 12 bytes, each a dash or an ASCII letter.
pub open spec fn spec_valid_symbol(s: Seq<char>) -> bool {
    &&& 3 <= encode_utf8(s).len() <= 12
    &&& forall|i: int| 0 <= i < encode_utf8(s).len() ==> is_symbol_byte(#[trigger] encode_utf8(s)[i])
}

impl InstantiateMsg {
    pub fn get_cap(&self) -> (r: Option<u128>)
        ensures
            r == match self.mint {
                Some(m) => m.cap,
                None => None::<u128>,
            },
    {
        match &self.mint {
            Some(m) => m.cap,
            None => None,
        }
    }

    pub fn has_valid_name(&self) -> (r: bool)
        ensures
            r == spec_valid_name(self.name@),
    {
        let bytes = self.name.as_str().as_bytes();
        3 <= bytes.len() && bytes.len() <= 50
    }

    pub fn has_valid_symbol(&self) -> (r: bool)
        ensures
            r == spec_valid_symbol(self.symbol@),
    {
        let bytes = self.symbol.as_str().as_bytes();
        let n = bytes.len();
        if n < 3 || n > 12 {
            return false;
        }
        let mut i: usize = 0;
        while i < n
            invariant
                i <= n,
                n == bytes@.len(),
                bytes@ == encode_utf8(self.symbol@),
                3 <= n <= 12,
                forall|j: int| 0 <= j < i ==> is_symbol_byte(#[trigger] bytes@[j]),
            decreases n - i,
        {
            let b = bytes[i];
            if b != 45 && (b < 65 || b > 90) && (b < 97 || b > 122) {
                return false;
            }
            i += 1;
        }
        true
    }

    /// Checks name, symbol and decimals, reporting the first violation.
    pub fn validate(&self) -> (r: Result<(), ContractError>)
        ensures
            r is Ok <==> spec_valid_name(self.name@) && spec_valid_symbol(self.symbol@)
                && self.decimals <= 18,
            !spec_valid_name(self.name@) ==> (r matches Err(e) && (e matches
            ContractError::InvalidInput { message } && message@
                == "Name is not in the expected format (3-50 UTF-8 bytes)"@)),
            spec_valid_name(self.name@) && !spec_valid_symbol(self.symbol@) ==> (r matches Err(e)
                && (e matches ContractError::InvalidInput { message } && message@
                == "Ticker symbol is not in expected format [a-zA-Z-]{3,12}"@)),
            spec_valid_name(self.name@) && spec_valid_symbol(self.symbol@) && self.decimals > 18
                ==> (r matches Err(e) && (e matches ContractError::InvalidInput { message }
                && message@ == "Decimals must not exceed 18"@)),
    {
        if !self.has_valid_name() {
            return Err(
                ContractError::InvalidInput {
                    message: String::from_str("Name is not in the expected format (3-50 UTF-8 bytes)"),
                },
            );
        }
        if !self.has_valid_symbol() {
            return Err(
                ContractError::InvalidInput {
                    message: String::from_str("Ticker symbol is not in expected format [a-zA-Z-]{3,12}"),
                },
            );
        }
        if self.decimals > 18 {
            return Err(
                ContractError::InvalidInput { message: String::from_str("Decimals must not exceed 18") },
            );
        }
        Ok(())
    }
}

/// Read-only queries of the migrating token contract.
#[derive(Debug)]
pub enum QueryMsg {
    /// The current balance of the given address; answered from the issuance
    /// system, not by this core.
    Balance { address: String },
    /// Metadata on the contract: name, decimals, supply.
    TokenInfo {},
    /// Who can mint, and the cap; always empty here.
    Minter {},
    /// All accounts that have balances, paginated.
    AllAccounts { start_after: Option<String>, limit: Option<u32> },
    /// Marketing metadata for clients.
    MarketingInfo {},
    /// The embedded logo data, if stored on chain.
    DownloadLogo {},
}

} // verus!
