use vstd::prelude::*;

use crate::shares::{share_sum, valid_shares};
use crate::types::{Beneficiary, Payout, BPS_DENOM};

verus! {

/// What a beneficiary with `share` basis points receives of `total`, rounded down.
pub open spec fn share_of(total: int, share: int) -> int {
    total * share / (BPS_DENOM as int)
}

/// What the first `k` beneficiaries receive together, each by `share_of`.
pub open spec fn distributed_before<A>(benes: Seq<Beneficiary<A>>, total: int, k: int) -> int
    decreases k,
{
    if k <= 0 {
        0
    } else {
        distributed_before(benes, total, k - 1) + share_of(total, benes[k - 1].share_bps as int)
    }
}

/// What beneficiary `i` receives: its rounded-down share, except the last
/// beneficiary, who absorbs the rounding remainder so that the vault empties.
pub open spec fn payout_amount<A>(benes: Seq<Beneficiary<A>>, total: int, i: int) -> int {
    if i == benes.len() - 1 {
        total - distributed_before(benes, total, i)
    } else {
        share_of(total, benes[i].share_bps as int)
    }
}

/// The transfers made to the first `k` beneficiaries, in list order; a beneficiary
/// whose amount is not positive gets no transfer.
pub open spec fn payouts_upto<A>(benes: Seq<Beneficiary<A>>, total: int, k: int) -> Seq<Payout>
    decreases k,
{
    if k <= 0 {
        seq![]
    } else {
        let prev = payouts_upto(benes, total, k - 1);
        let amount = payout_amount(benes, total, k - 1);
        if amount > 0 {
            prev.push(Payout { beneficiary: (k - 1) as usize, amount: amount as i128 })
        } else {
            prev
        }
    }
}

/// The transfers a claim of `total` makes to the beneficiaries.
pub open spec fn payout_plan<A>(benes: Seq<Beneficiary<A>>, total: int) -> Seq<Payout> {
    payouts_upto(benes, total, benes.len() as int)
}

/// The sum of the amounts of a list of transfers.
pub open spec fn payout_total(ps: Seq<Payout>) -> int
    decreases ps.len(),
{
    if ps.len() == 0 {
        0
    } else {
        payout_total(ps.drop_last()) + ps.last().amount
    }
}

/// The products `total * share` that the split computes all fit in an `i128`
/// (the last beneficiary's share is never multiplied).
pub open spec fn payout_fits<A>(benes: Seq<Beneficiary<A>>, total: int) -> bool {
    forall|i: int|
        0 <= i < benes.len() - 1 ==> i128::MIN <= total * (#[trigger] benes[i].share_bps)
            <= i128::MAX
}

proof fn lemma_share_of_bounds(total: int, share: int)
    requires
        total >= 0,
        share >= 0,
    ensures
        0 <= share_of(total, share),
        share <= BPS_DENOM ==> share_of(total, share) <= total,
{
    assert(0 <= total * share / 10000) by (nonlinear_arith)
        requires
            total >= 0,
            share >= 0,
    ;
    if share <= BPS_DENOM {
        assert(total * share / 10000 <= total) by (nonlinear_arith)
            requires
                total >= 0,
                0 <= share <= 10000,
        ;
    }
}

proof fn lemma_floor_add(x: int, y: int)
    requires
        x >= 0,
        y >= 0,
    ensures
        x / 10000 + y / 10000 <= (x + y) / 10000,
{
    assert(x / 10000 + y / 10000 <= (x + y) / 10000) by (nonlinear_arith)
        requires
            x >= 0,
            y >= 0,
    ;
}

/// Shares are non-negative, so a prefix never holds more than the whole list.
proof fn lemma_prefix_share_le<A>(benes: Seq<Beneficiary<A>>, k: int)
    requires
        0 <= k <= benes.len(),
    ensures
        0 <= share_sum(benes.take(k)) <= share_sum(benes),
    decreases benes.len(),
{
    if k == benes.len() {
        assert(benes.take(k) =~= benes);
        lemma_share_sum_nonneg(benes);
    } else {
        assert(benes.drop_last().take(k) =~= benes.take(k));
        lemma_prefix_share_le(benes.drop_last(), k);
    }
}

/// A share sum is never negative.
pub proof fn lemma_share_sum_nonneg<A>(benes: Seq<Beneficiary<A>>)
    ensures
        share_sum(benes) >= 0,
    decreases benes.len(),
{
    if benes.len() > 0 {
        lemma_share_sum_nonneg(benes.drop_last());
    }
}

/// What the first `k` beneficiaries receive is at most their combined share of
/// `total`, rounded down.
proof fn lemma_distributed_before_bound<A>(benes: Seq<Beneficiary<A>>, total: int, k: int)
    requires
        total >= 0,
        0 <= k <= benes.len(),
    ensures
        0 <= distributed_before(benes, total, k),
        distributed_before(benes, total, k) <= total * share_sum(benes.take(k)) / 10000,
    decreases k,
{
    if k == 0 {
        assert(benes.take(0) =~= Seq::<Beneficiary<A>>::empty());
    } else {
        lemma_distributed_before_bound(benes, total, k - 1);
        assert(benes.take(k).drop_last() =~= benes.take(k - 1));
        let p = share_sum(benes.take(k - 1));
        let s = benes[k - 1].share_bps as int;
        lemma_prefix_share_le(benes, k - 1);
        lemma_share_of_bounds(total, s);
        assert(total * p >= 0) by (nonlinear_arith)
            requires
                total >= 0,
                p >= 0,
        ;
        assert(total * s >= 0) by (nonlinear_arith)
            requires
                total >= 0,
                s >= 0,
        ;
        lemma_floor_add(total * p, total * s);
        assert(total * p + total * s == total * (p + s)) by (nonlinear_arith);
    }
}

/// Under valid shares, what the beneficiaries before `k` receive is between zero
/// and `total`.
pub proof fn lemma_distributed_within_total<A>(benes: Seq<Beneficiary<A>>, total: int, k: int)
    requires
        valid_shares(benes),
        total >= 0,
        0 <= k <= benes.len(),
    ensures
        0 <= distributed_before(benes, total, k) <= total,
{
    lemma_distributed_before_bound(benes, total, k);
    lemma_prefix_share_le(benes, k);
    let p = share_sum(benes.take(k));
    assert(total * p / 10000 <= total) by (nonlinear_arith)
        requires
            total >= 0,
            0 <= p <= 10000,
    ;
}

/// Every amount of the split is non-negative and at most `total`.
pub proof fn lemma_payout_amount_bounds<A>(benes: Seq<Beneficiary<A>>, total: int, i: int)
    requires
        valid_shares(benes),
        total >= 0,
        0 <= i < benes.len(),
    ensures
        0 <= payout_amount(benes, total, i) <= total,
{
    if i == benes.len() - 1 {
        lemma_distributed_within_total(benes, total, i);
    } else {
        lemma_distributed_before_bound(benes, total, i + 1);
        lemma_prefix_share_le(benes, i + 1);
        assert(benes.take(i + 1).drop_last() =~= benes.take(i));
        lemma_prefix_share_le(benes, i);
        lemma_share_of_bounds(total, benes[i].share_bps as int);
    }
}

/// The transfers to the first `k < n` beneficiaries add up to what those
/// beneficiaries receive by share; together with the last one they add up to
/// `total`.
proof fn lemma_payouts_upto_total<A>(benes: Seq<Beneficiary<A>>, total: int, k: int)
    requires
        valid_shares(benes),
        0 <= total <= i128::MAX,
        0 <= k <= benes.len(),
    ensures
        k < benes.len() ==> payout_total(payouts_upto(benes, total, k)) == distributed_before(
            benes,
            total,
            k,
        ),
        k == benes.len() ==> payout_total(payouts_upto(benes, total, k)) == total,
    decreases k,
{
    if k > 0 {
        lemma_payouts_upto_total(benes, total, k - 1);
        lemma_payout_amount_bounds(benes, total, k - 1);
        lemma_distributed_within_total(benes, total, k - 1);
        let prev = payouts_upto(benes, total, k - 1);
        let amount = payout_amount(benes, total, k - 1);
        if amount > 0 {
            let p = Payout { beneficiary: (k - 1) as usize, amount: amount as i128 };
            assert(prev.push(p).drop_last() =~= prev);
            assert(payout_total(prev.push(p)) == payout_total(prev) + amount);
        } else {
            assert(amount == 0);
        }
    }
}

/// The whole balance is paid out: the transfers of a claim add up to `total`.
pub proof fn lemma_payout_plan_total<A>(benes: Seq<Beneficiary<A>>, total: int)
    requires
        valid_shares(benes),
        0 <= total <= i128::MAX,
    ensures
        payout_total(payout_plan(benes, total)) == total,
{
    lemma_payouts_upto_total(benes, total, benes.len() as int);
}

/// Each transfer of the first `k` goes to a listed beneficiary, at most once and in
/// list order, of the positive amount that the split gives that beneficiary.
proof fn lemma_payouts_upto_shape<A>(benes: Seq<Beneficiary<A>>, total: int, k: int)
    requires
        valid_shares(benes),
        benes.len() <= usize::MAX,
        0 <= total <= i128::MAX,
        0 <= k <= benes.len(),
    ensures
        forall|j: int|
            0 <= j < payouts_upto(benes, total, k).len() ==> {
                let p = #[trigger] payouts_upto(benes, total, k)[j];
                &&& p.beneficiary < k
                &&& p.amount > 0
                &&& p.amount == payout_amount(benes, total, p.beneficiary as int)
            },
        forall|j1: int, j2: int|
            0 <= j1 < j2 < payouts_upto(benes, total, k).len() ==> (#[trigger] payouts_upto(
                benes,
                total,
                k,
            )[j1]).beneficiary < (#[trigger] payouts_upto(benes, total, k)[j2]).beneficiary,
    decreases k,
{
    if k > 0 {
        lemma_payouts_upto_shape(benes, total, k - 1);
        lemma_payout_amount_bounds(benes, total, k - 1);
        let prev = payouts_upto(benes, total, k - 1);
        let amount = payout_amount(benes, total, k - 1);
        if amount > 0 {
            let p = Payout { beneficiary: (k - 1) as usize, amount: amount as i128 };
            let cur = prev.push(p);
            assert(cur == payouts_upto(benes, total, k));
            assert forall|j: int| 0 <= j < prev.len() implies cur[j] == prev[j] by {}
            assert forall|j1: int, j2: int|
                0 <= j1 < j2 < cur.len() implies (#[trigger] cur[j1]).beneficiary
                < (#[trigger] cur[j2]).beneficiary by {
                if j2 == prev.len() {
                    assert(cur[j1] == prev[j1]);
                } else {
                    assert(cur[j1] == prev[j1]);
                    assert(cur[j2] == prev[j2]);
                }
            }
        }
    }
}

/// The transfers of a claim go only to configured beneficiaries, each at most
/// once and in list order, and each moves a positive amount: the one the split
/// gives that beneficiary.
pub proof fn lemma_payout_plan_shape<A>(benes: Seq<Beneficiary<A>>, total: int)
    requires
        valid_shares(benes),
        benes.len() <= usize::MAX,
        0 <= total <= i128::MAX,
    ensures
        forall|j: int|
            0 <= j < payout_plan(benes, total).len() ==> {
                let p = #[trigger] payout_plan(benes, total)[j];
                &&& p.beneficiary < benes.len()
                &&& p.amount > 0
                &&& p.amount == payout_amount(benes, total, p.beneficiary as int)
            },
        forall|j1: int, j2: int|
            0 <= j1 < j2 < payout_plan(benes, total).len() ==> (#[trigger] payout_plan(
                benes,
                total,
            )[j1]).beneficiary < (#[trigger] payout_plan(benes, total)[j2]).beneficiary,
{
    lemma_payouts_upto_shape(benes, total, benes.len() as int);
}

/// Whether the split of `total` among `benes` can be computed without overflow.
pub fn payouts_fit<A>(benes: &Vec<Beneficiary<A>>, total: i128) -> (r: bool)
    ensures
        r == payout_fits(benes@, total as int),
{
    let n = benes.len();
    if n == 0 {
        return true;
    }
    for i in 0..n - 1
        invariant
            n == benes@.len(),
            n >= 1,
            forall|j: int|
                0 <= j < i ==> i128::MIN <= total * (#[trigger] benes@[j].share_bps) <= i128::MAX,
    {
        let share = benes[i].share_bps as i128;
        match total.checked_mul(share) {
            Some(_) => {},
            None => {
                assert(!(i128::MIN <= total * benes@[i as int].share_bps <= i128::MAX));
                return false;
            },
        }
    }
    true
}

/// Splits `total` among `benes` by share: every beneficiary but the last receives
/// `total * share / 10_000`, rounded down, and the last receives what remains, so
/// that the whole of `total` is paid out. A beneficiary whose amount is zero gets
/// no transfer.
pub fn distribute<A>(benes: &Vec<Beneficiary<A>>, total: i128) -> (r: Vec<Payout>)
    requires
        valid_shares(benes@),
        total > 0,
        payout_fits(benes@, total as int),
    ensures
        r@ == payout_plan(benes@, total as int),
{
    let n = benes.len();
    let mut distributed: i128 = 0;
    let mut out: Vec<Payout> = Vec::new();
    for i in 0..n
        invariant
            n == benes@.len(),
            valid_shares(benes@),
            total > 0,
            payout_fits(benes@, total as int),
            i < n ==> distributed == distributed_before(benes@, total as int, i as int),
            out@ == payouts_upto(benes@, total as int, i as int),
    {
        proof {
            lemma_distributed_within_total(benes@, total as int, i as int);
            lemma_payout_amount_bounds(benes@, total as int, i as int);
        }
        let amount: i128 = if i == n - 1 {
            total - distributed
        } else {
            let share = benes[i].share_bps as i128;
            assert(total * benes@[i as int].share_bps <= i128::MAX);
            total * share / (BPS_DENOM as i128)
        };
        if amount > 0 {
            out.push(Payout { beneficiary: i, amount });
        }
        proof {
            if i + 1 < n {
                lemma_distributed_within_total(benes@, total as int, i + 1);
            }
        }
        distributed = distributed + amount;
    }
    out
}

} // verus!
