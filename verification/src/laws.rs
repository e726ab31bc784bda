//! The migration protocol's guarantees, proved once and for all over the
//! model in `model`: conservation of supply, complete coverage without
//! skips or duplicates, idempotence after exhaustion, the zeroing policy,
//! and cursor monotonicity.  The engine's contract says each batch performs
//! exactly one `step_state` transition, so these laws carry over to any
//! sequence of executed batches.

use vstd::prelude::*;
use crate::model::{
    LedgerView, view_wf, exhausted, step_start, step_end, step_page, step_total, step_ok,
    step_state, sum_range, zero_range, lemma_step_advances, lemma_start_props_any,
    lemma_start_from_props, lemma_sum_nonneg, lemma_sum_split, lemma_sum_congruence,
    lemma_sum_zero,
};
use crate::order::{lex_lt, lemma_lex_irrefl, lemma_lex_trans};

verus! {

/// The state after running one batch per entry of `limits`, in order.
pub open spec fn run_state(v: LedgerView, limits: Seq<Option<u32>>) -> LedgerView
    decreases limits.len(),
{
    if limits.len() == 0 {
        v
    } else {
        run_state(step_state(v, limits[0]), limits.drop_first())
    }
}

/// Every batch of the sequence completes.
pub open spec fn run_ok(v: LedgerView, limits: Seq<Option<u32>>) -> bool
    decreases limits.len(),
{
    limits.len() == 0 || (step_ok(v, limits[0]) && run_ok(
        step_state(v, limits[0]),
        limits.drop_first(),
    ))
}

/// All migrated accounts, in batch order then enumeration order.
pub open spec fn run_pages(v: LedgerView, limits: Seq<Option<u32>>) -> Seq<Seq<char>>
    decreases limits.len(),
{
    if limits.len() == 0 {
        Seq::empty()
    } else {
        step_page(v, limits[0]) + run_pages(step_state(v, limits[0]), limits.drop_first())
    }
}

/// Total amount migrated across the whole sequence of batches.
pub open spec fn run_total(v: LedgerView, limits: Seq<Option<u32>>) -> int
    decreases limits.len(),
{
    if limits.len() == 0 {
        0
    } else {
        step_total(v, limits[0]) + run_total(step_state(v, limits[0]), limits.drop_first())
    }
}

/// Conservation: across any sequence of completed batches, the aggregate
/// supply counter drops by exactly the sum of the balances migrated.
pub proof fn law_conservation(v: LedgerView, limits: Seq<Option<u32>>)
    requires
        view_wf(v),
        run_ok(v, limits),
    ensures
        v.supply - run_state(v, limits).supply == run_total(v, limits),
    decreases limits.len(),
{
    if limits.len() > 0 {
        let l0 = limits[0];
        let v1 = step_state(v, l0);
        lemma_step_advances(v, l0);
        lemma_sum_nonneg(v.amounts, step_start(v), step_end(v, l0));
        if step_start(v) == step_end(v, l0) {
            assert(step_total(v, l0) == 0);
        }
        law_conservation(v1, limits.drop_first());
    }
}

/// The pages of a run form one contiguous stretch of the (unchanging)
/// account list, starting at the initial cursor position.
pub proof fn law_pages_contiguous(v: LedgerView, limits: Seq<Option<u32>>)
    requires
        view_wf(v),
    ensures
        view_wf(run_state(v, limits)),
        run_state(v, limits).keys == v.keys,
        step_start(v) <= step_start(run_state(v, limits)) <= v.keys.len(),
        run_pages(v, limits) == v.keys.subrange(
            step_start(v),
            step_start(run_state(v, limits)),
        ),
    decreases limits.len(),
{
    lemma_start_props_any(v);
    if limits.len() == 0 {
        assert(run_pages(v, limits) =~= v.keys.subrange(step_start(v), step_start(v)));
    } else {
        let l0 = limits[0];
        let v1 = step_state(v, l0);
        let s = step_start(v);
        let e = step_end(v, l0);
        lemma_step_advances(v, l0);
        law_pages_contiguous(v1, limits.drop_first());
        let f = step_start(run_state(v, limits));
        assert(run_pages(v, limits) =~= v.keys.subrange(s, f)) by {
            let p0 = step_page(v, l0);
            let rest = run_pages(v1, limits.drop_first());
            assert(p0.len() == e - s);
            assert forall|j: int| 0 <= j < f - s implies #[trigger] (p0 + rest)[j]
                == v.keys.subrange(s, f)[j] by {
                if j < e - s {
                    assert((p0 + rest)[j] == p0[j]);
                    assert(p0[j] == v.keys[s + j]);
                } else {
                    assert((p0 + rest)[j] == rest[j - (e - s)]);
                    assert(rest[j - (e - s)] == v.keys.subrange(e, f)[j - (e - s)]);
                }
            }
        }
    }
}

/// No skip, no duplicate: running any sequence of batches, with any fixed
/// or varying limits, from a fresh cursor until the enumerator is
/// exhausted, migrates exactly the full account list — each account once,
/// in enumeration order.
pub proof fn law_no_skip_no_duplicate(v: LedgerView, limits: Seq<Option<u32>>)
    requires
        view_wf(v),
        v.cursor is None,
        exhausted(run_state(v, limits)),
    ensures
        run_pages(v, limits) == v.keys,
        forall|i: int, j: int| 0 <= i < j < v.keys.len() ==> v.keys[i] != v.keys[j],
{
    law_pages_contiguous(v, limits);
    assert(run_pages(v, limits) =~= v.keys.subrange(0, v.keys.len() as int));
    assert(v.keys.subrange(0, v.keys.len() as int) =~= v.keys);
    assert forall|i: int, j: int| 0 <= i < j < v.keys.len() implies v.keys[i] != v.keys[j] by {
        assert(lex_lt(v.keys[i], v.keys[j]));
        lemma_lex_irrefl(v.keys[i]);
    }
}

/// Idempotent tail: once the enumerator is exhausted, a further batch
/// migrates nothing, changes no counter and leaves the cursor where it is.
pub proof fn law_idempotent_tail(v: LedgerView, limit: Option<u32>)
    requires
        exhausted(v),
    ensures
        step_page(v, limit) == Seq::<Seq<char>>::empty(),
        step_total(v, limit) == 0,
        step_state(v, limit) == v,
{
    assert(step_end(v, limit) == step_start(v));
    assert(step_page(v, limit) =~= Seq::<Seq<char>>::empty());
}

/// Zeroing policy: with zeroing on, every migrated balance is exactly zero
/// right after its batch and no other balance moves; with zeroing off, the
/// ledger keeps all balances while the supply counter still drops by the
/// batch total — the two views diverge by design.
pub proof fn law_zeroing(v: LedgerView, limit: Option<u32>)
    requires
        view_wf(v),
        step_ok(v, limit),
        step_page(v, limit).len() > 0,
    ensures
        v.burn ==> forall|j: int|
            step_start(v) <= j < step_end(v, limit) ==> step_state(v, limit).amounts[j] == 0,
        v.burn ==> forall|j: int|
            0 <= j < v.amounts.len() && !(step_start(v) <= j < step_end(v, limit)) ==> step_state(
                v,
                limit,
            ).amounts[j] == v.amounts[j],
        !v.burn ==> step_state(v, limit).amounts == v.amounts,
        step_state(v, limit).supply == v.supply - step_total(v, limit),
{
    lemma_start_props_any(v);
    lemma_sum_nonneg(v.amounts, step_start(v), step_end(v, limit));
}

/// With zeroing on, the invariant that the ledger's balances sum to the
/// aggregate supply counter survives every completed batch: the page's
/// balances leave the ledger exactly as their total leaves the counter.
pub proof fn law_zeroing_preserves_alignment(v: LedgerView, limit: Option<u32>)
    requires
        view_wf(v),
        step_ok(v, limit),
        v.burn,
        sum_range(v.amounts, 0, v.amounts.len() as int) == v.supply,
    ensures
        ({
            let v2 = step_state(v, limit);
            sum_range(v2.amounts, 0, v2.amounts.len() as int) == v2.supply
        }),
{
    let s = step_start(v);
    let e = step_end(v, limit);
    lemma_start_props_any(v);
    if s != e {
        let z = zero_range(v.amounts, s, e);
        let n = v.amounts.len() as int;
        assert(0 <= s <= e <= n);
        lemma_sum_nonneg(v.amounts, s, e);
        assert(z.len() == n);
        assert forall|j: int| 0 <= j < s implies v.amounts[j] == z[j] by {
            assert(z[j] == v.amounts[j]);
        }
        assert forall|j: int| e <= j < n implies v.amounts[j] == z[j] by {
            assert(z[j] == v.amounts[j]);
        }
        assert forall|j: int| s <= j < e implies z[j] == 0 by {
            assert(z[j] == 0);
        }
        lemma_sum_split(v.amounts, 0, s, n);
        lemma_sum_split(v.amounts, s, e, n);
        lemma_sum_split(z, 0, s, n);
        lemma_sum_split(z, s, e, n);
        lemma_sum_congruence(v.amounts, z, 0, s);
        lemma_sum_congruence(v.amounts, z, e, n);
        lemma_sum_zero(z, s, e);
        assert(sum_range(z, 0, n) == sum_range(v.amounts, 0, n) - sum_range(v.amounts, s, e));
    }
}

/// Cursor monotonicity: after every non-empty batch the cursor strictly
/// advances in enumeration order, and an empty batch leaves it unchanged —
/// it never regresses.
pub proof fn law_cursor_monotonic(v: LedgerView, limit: Option<u32>)
    requires
        view_wf(v),
    ensures
        step_page(v, limit).len() > 0 ==> ({
            let c2 = step_state(v, limit).cursor;
            &&& c2 is Some
            &&& match v.cursor {
                None => true,
                Some(c1) => lex_lt(c1, c2->0),
            }
        }),
        step_page(v, limit).len() == 0 ==> step_state(v, limit).cursor == v.cursor,
{
    let s = step_start(v);
    let e = step_end(v, limit);
    lemma_start_props_any(v);
    if s < e {
        match v.cursor {
            None => {},
            Some(c1) => {
                lemma_start_from_props(v.keys, c1);
                if s < e - 1 {
                    lemma_lex_trans(c1, v.keys[s], v.keys[e - 1]);
                }
            },
        }
    }
}

} // verus!
