//! A denominated amount.

use vstd::prelude::*;
use vstd::string::StringExecFns;

verus! {

/// An amount of one denomination.
#[derive(Debug)]
pub struct Coin {
    pub denom: String,
    pub amount: u128,
}

/// Copies a coin.
pub fn clone_coin(c: &Coin) -> (r: Coin)
    ensures
        r == *c,
{
    Coin { denom: c.denom.clone(), amount: c.amount }
}

/// The denominations of the listed coins, run together into one string.
pub open spec fn concat_denoms(funds: Seq<Coin>) -> Seq<char>
    decreases funds.len(),
{
    if funds.len() == 0 {
        Seq::empty()
    } else {
        concat_denoms(funds.drop_last()) + funds.last().denom@
    }
}

/// Renders `concat_denoms` for an error report.
pub fn collect_denoms(funds: &Vec<Coin>) -> (r: String)
    ensures
        r@ == concat_denoms(funds@),
{
    let n = funds.len();
    let mut out = String::new();
    let mut i: usize = 0;
    proof {
        assert(out@ =~= concat_denoms(funds@.subrange(0, 0)));
    }
    while i < n
        invariant
            i <= n,
            n == funds@.len(),
            out@ == concat_denoms(funds@.subrange(0, i as int)),
        decreases n - i,
    {
        out.append(funds[i].denom.as_str());
        proof {
            assert(funds@.subrange(0, i + 1).drop_last() =~= funds@.subrange(0, i as int));
            assert(out@ =~= concat_denoms(funds@.subrange(0, i + 1)));
        }
        i += 1;
    }
    proof {
        assert(funds@.subrange(0, n as int) =~= funds@);
    }
    out
}

/// Copies a list of coins.
pub fn clone_coins(v: &Vec<Coin>) -> (r: Vec<Coin>)
    ensures
        r@ == v@,
{
    let n = v.len();
    let mut out: Vec<Coin> = Vec::new();
    let mut i: usize = 0;
    while i < n
        invariant
            i <= n,
            n == v@.len(),
            out@ == v@.subrange(0, i as int),
        decreases n - i,
    {
        out.push(clone_coin(&v[i]));
        proof {
            assert(out@ =~= v@.subrange(0, i + 1));
        }
        i += 1;
    }
    proof {
        assert(v@.subrange(0, n as int) =~= v@);
    }
    out
}

} // verus!
