//! Mathematical model of the paginated migration.
//!
//! The ledger is modelled as a sequence of identifier/balance pairs sorted by
//! `lex_lt`, together with the aggregate supply counter, the pagination
//! cursor and the zeroing policy flag.  One migration batch is the pure
//! transition `step_state`; the executable engine's contract says that it
//! performs exactly this transition, and the laws in `laws` are proved about
//! iterating it.

use vstd::prelude::*;
use crate::order::{lex_lt, lemma_lex_irrefl, lemma_lex_asym};

verus! {

/// Page size used when the caller does not supply one.
pub const DEFAULT_LIMIT: u32 = 30;

/// Hard cap on the page size; larger requests are clamped, never rejected.
pub const MAX_LIMIT: u32 = 30;

/// The ledger and cursor state one migration batch works on.
#[verifier::ext_equal]
pub ghost struct LedgerView {
    /// Account identifiers, in the ledger's enumeration order.
    pub keys: Seq<Seq<char>>,
    /// Balance of each account, parallel to `keys`.
    pub amounts: Seq<u128>,
    /// Aggregate supply counter.
    pub supply: u128,
    /// Identifier of the last migrated account, if any batch ran yet.
    pub cursor: Option<Seq<char>>,
    /// Whether migrated balances are zeroed in the ledger.
    pub burn: bool,
}

/// Keys are strictly ascending, hence pairwise distinct.
pub open spec fn sorted_keys(keys: Seq<Seq<char>>) -> bool {
    forall|i: int, j: int| 0 <= i < j < keys.len() ==> #[trigger] lex_lt(keys[i], keys[j])
}

pub open spec fn view_wf(v: LedgerView) -> bool {
    &&& v.keys.len() == v.amounts.len()
    &&& sorted_keys(v.keys)
}

/// Index of the first key strictly after `c`; `keys.len()` if there is none.
pub open spec fn start_from(keys: Seq<Seq<char>>, c: Seq<char>) -> int
    decreases keys.len(),
{
    if keys.len() == 0 {
        0
    } else if lex_lt(c, keys[0]) {
        0
    } else {
        1 + start_from(keys.drop_first(), c)
    }
}

/// Index of the first key strictly after the cursor; 0 for a fresh cursor.
pub open spec fn start_of(keys: Seq<Seq<char>>, after: Option<Seq<char>>) -> int {
    match after {
        None => 0,
        Some(c) => start_from(keys, c),
    }
}

/// The page size actually used for a request: the default when absent,
/// clamped to the maximum.
pub open spec fn effective_limit(limit: Option<u32>) -> int {
    let l = match limit {
        None => DEFAULT_LIMIT,
        Some(v) => v,
    };
    if l > MAX_LIMIT {
        MAX_LIMIT as int
    } else {
        l as int
    }
}

/// One past the last index of the page that starts after `after`.
pub open spec fn page_end(keys: Seq<Seq<char>>, after: Option<Seq<char>>, limit: Option<u32>) -> int {
    let s = start_of(keys, after);
    if keys.len() - s > effective_limit(limit) {
        s + effective_limit(limit)
    } else {
        keys.len() as int
    }
}

/// The page of keys strictly after `after`, at most `effective_limit(limit)`
/// of them.
pub open spec fn page_of(keys: Seq<Seq<char>>, after: Option<Seq<char>>, limit: Option<u32>) -> Seq<
    Seq<char>,
> {
    keys.subrange(start_of(keys, after), page_end(keys, after, limit))
}

/// Sum of `amts[s..e]`, as an unbounded integer.
pub open spec fn sum_range(amts: Seq<u128>, s: int, e: int) -> int
    decreases e - s,
{
    if s < e {
        amts[s] + sum_range(amts, s + 1, e)
    } else {
        0
    }
}

/// `amts` with the entries in `[s, e)` replaced by zero.
pub open spec fn zero_range(amts: Seq<u128>, s: int, e: int) -> Seq<u128> {
    Seq::new(amts.len(), |i: int| if s <= i < e { 0u128 } else { amts[i] })
}

/// Where the next batch starts.
pub open spec fn step_start(v: LedgerView) -> int {
    start_of(v.keys, v.cursor)
}

/// Where the next batch ends.
pub open spec fn step_end(v: LedgerView, limit: Option<u32>) -> int {
    page_end(v.keys, v.cursor, limit)
}

/// The keys the next batch migrates.
pub open spec fn step_page(v: LedgerView, limit: Option<u32>) -> Seq<Seq<char>> {
    page_of(v.keys, v.cursor, limit)
}

/// The amount the next batch migrates.
pub open spec fn step_total(v: LedgerView, limit: Option<u32>) -> int {
    sum_range(v.amounts, step_start(v), step_end(v, limit))
}

/// Whether the next batch completes: the supply counter must cover the
/// batch total.
pub open spec fn step_ok(v: LedgerView, limit: Option<u32>) -> bool {
    step_total(v, limit) <= v.supply
}

/// The enumerator has nothing left past the cursor.
pub open spec fn exhausted(v: LedgerView) -> bool {
    step_start(v) == v.keys.len()
}

/// The state after one completed batch: balances optionally zeroed, supply
/// decremented by the batch total, cursor advanced to the last key of the
/// page.  An empty page changes nothing.
pub open spec fn step_state(v: LedgerView, limit: Option<u32>) -> LedgerView {
    let s = step_start(v);
    let e = step_end(v, limit);
    if s == e {
        v
    } else {
        LedgerView {
            keys: v.keys,
            amounts: if v.burn {
                zero_range(v.amounts, s, e)
            } else {
                v.amounts
            },
            supply: (v.supply - step_total(v, limit)) as u128,
            cursor: Some(v.keys[e - 1]),
            burn: v.burn,
        }
    }
}

/// `start_from` returns the first index whose key is strictly after `c`.
pub proof fn lemma_start_from_props(keys: Seq<Seq<char>>, c: Seq<char>)
    ensures
        0 <= start_from(keys, c) <= keys.len(),
        forall|j: int| 0 <= j < start_from(keys, c) ==> !lex_lt(c, #[trigger] keys[j]),
        start_from(keys, c) < keys.len() ==> lex_lt(c, keys[start_from(keys, c)]),
    decreases keys.len(),
{
    if keys.len() > 0 && !lex_lt(c, keys[0]) {
        let kd = keys.drop_first();
        lemma_start_from_props(kd, c);
        assert forall|j: int| 0 <= j < start_from(keys, c) implies !lex_lt(
            c,
            #[trigger] keys[j],
        ) by {
            if j > 0 {
                assert(kd[j - 1] == keys[j]);
            }
        }
        if start_from(keys, c) < keys.len() {
            assert(kd[start_from(kd, c)] == keys[start_from(keys, c)]);
        }
    }
}

/// Any index with the first-strictly-after property is `start_from`.
pub proof fn lemma_start_from_unique(keys: Seq<Seq<char>>, c: Seq<char>, i: int)
    requires
        0 <= i <= keys.len(),
        forall|j: int| 0 <= j < i ==> !lex_lt(c, #[trigger] keys[j]),
        i < keys.len() ==> lex_lt(c, keys[i]),
    ensures
        start_from(keys, c) == i,
{
    let s = start_from(keys, c);
    lemma_start_from_props(keys, c);
    if s < i {
        assert(!lex_lt(c, keys[s]));
        assert(false);
    }
    if i < s {
        assert(!lex_lt(c, keys[i]));
        assert(false);
    }
}

/// In a sorted ledger, the page that starts strictly after the key at `m`
/// starts at index `m + 1`.
pub proof fn lemma_start_after_member(keys: Seq<Seq<char>>, m: int)
    requires
        sorted_keys(keys),
        0 <= m < keys.len(),
    ensures
        start_from(keys, keys[m]) == m + 1,
{
    assert forall|j: int| 0 <= j < m + 1 implies !lex_lt(keys[m], #[trigger] keys[j]) by {
        if j < m {
            assert(lex_lt(keys[j], keys[m]));
            lemma_lex_asym(keys[j], keys[m]);
        } else {
            lemma_lex_irrefl(keys[m]);
        }
    }
    lemma_start_from_unique(keys, keys[m], m + 1);
}

/// A nonempty completed batch leaves the cursor on the last key of its page,
/// so the next batch starts exactly where this one ended.
pub proof fn lemma_step_advances(v: LedgerView, limit: Option<u32>)
    requires
        view_wf(v),
    ensures
        view_wf(step_state(v, limit)),
        step_state(v, limit).keys == v.keys,
        step_state(v, limit).burn == v.burn,
        step_start(step_state(v, limit)) == step_end(v, limit),
{
    let s = step_start(v);
    let e = step_end(v, limit);
    lemma_start_props_any(v);
    if s == e {
    } else {
        lemma_start_after_member(v.keys, e - 1);
    }
}

/// Bounds on the start index for any cursor.
pub proof fn lemma_start_props_any(v: LedgerView)
    ensures
        0 <= step_start(v) <= v.keys.len(),
{
    match v.cursor {
        None => {},
        Some(c) => {
            lemma_start_from_props(v.keys, c);
        },
    }
}

/// Appending one entry to a range sum.
pub proof fn lemma_sum_extend(amts: Seq<u128>, s: int, i: int)
    requires
        s <= i,
    ensures
        sum_range(amts, s, i + 1) == sum_range(amts, s, i) + amts[i],
    decreases i - s,
{
    if s < i {
        lemma_sum_extend(amts, s + 1, i);
    } else {
        assert(sum_range(amts, i + 1, i + 1) == 0);
        assert(sum_range(amts, s, i) == 0);
    }
}

pub proof fn lemma_sum_nonneg(amts: Seq<u128>, s: int, e: int)
    ensures
        sum_range(amts, s, e) >= 0,
    decreases e - s,
{
    if s < e {
        lemma_sum_nonneg(amts, s + 1, e);
    }
}

/// A range sum splits at any point inside the range.
pub proof fn lemma_sum_split(amts: Seq<u128>, a: int, b: int, c: int)
    requires
        a <= b <= c,
    ensures
        sum_range(amts, a, c) == sum_range(amts, a, b) + sum_range(amts, b, c),
    decreases b - a,
{
    if a < b {
        lemma_sum_split(amts, a + 1, b, c);
    }
}

/// The sum of a range only depends on the entries in the range.
pub proof fn lemma_sum_congruence(a: Seq<u128>, b: Seq<u128>, s: int, e: int)
    requires
        forall|j: int| s <= j < e ==> a[j] == b[j],
    ensures
        sum_range(a, s, e) == sum_range(b, s, e),
    decreases e - s,
{
    if s < e {
        lemma_sum_congruence(a, b, s + 1, e);
    }
}

/// A range of zeroes sums to zero.
pub proof fn lemma_sum_zero(amts: Seq<u128>, s: int, e: int)
    requires
        forall|j: int| s <= j < e ==> amts[j] == 0,
    ensures
        sum_range(amts, s, e) == 0,
    decreases e - s,
{
    if s < e {
        lemma_sum_zero(amts, s + 1, e);
    }
}

/// A range sum only grows as the range is extended on the right.
pub proof fn lemma_sum_mono(amts: Seq<u128>, s: int, i: int, e: int)
    requires
        s <= i <= e,
    ensures
        sum_range(amts, s, e) >= sum_range(amts, s, i),
    decreases i - s,
{
    if s < i {
        lemma_sum_mono(amts, s + 1, i, e);
    } else {
        lemma_sum_nonneg(amts, i, e);
    }
}

} // verus!
