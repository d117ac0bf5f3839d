//! What each operation does, stated on its inputs: which calls are accepted, which
//! error each refused call gets, and the whole vault after an accepted call.

use vstd::prelude::*;

use crate::distribution::{
    lemma_share_sum_nonneg, payout_amount, payout_fits, payout_plan, payout_total, payouts_upto,
};
use crate::shares::{as_result, lemma_share_sum_remove, share_sum, shares_error, valid_shares};
use crate::types::{Beneficiary, Error, Payout, VaultStatus};
use crate::vault::{
    claim_safe, deadline_fits, wf, after_claim, amount_error, claim_result, claimable_at, deadline_value, init_error,
    initialized_error, set_beneficiaries_error, set_schedule_error, status_at, step,
    time_left_at, Op, VaultView,
};

verus! {

/// An error verdict becomes the operation's result: no error is `Ok(())`, an error
/// is returned as it is.
pub proof fn lemma_verdict_is_result(e: Error)
    ensures
        as_result(None) == Ok::<(), Error>(()),
        as_result(Some(e)) == Err::<(), Error>(e),
{
}

/// The share sum of a list is the sum of its entries' shares: 0 for no heirs, and
/// one more heir adds exactly that heir's share.
pub proof fn lemma_share_sum_adds_shares<A>(benes: Seq<Beneficiary<A>>, b: Beneficiary<A>)
    ensures
        share_sum(Seq::<Beneficiary<A>>::empty()) == 0,
        share_sum(benes.push(b)) == share_sum(benes) + b.share_bps,
{
    assert(benes.push(b).drop_last() =~= benes);
}

/// A beneficiary list is accepted exactly when it is non-empty and its shares sum
/// to exactly 10_000 bps, whatever its length and whoever is in it; an empty list
/// is refused with `NoBeneficiaries`, any other bad list with `InvalidShares`.
pub proof fn lemma_heir_list_verdict<A>(benes: Seq<Beneficiary<A>>)
    ensures
        shares_error(benes) is None <==> (benes.len() > 0 && share_sum(benes) == 10_000),
        valid_shares(benes) <==> (benes.len() > 0 && share_sum(benes) == 10_000),
        benes.len() == 0 ==> shares_error(benes) == Some(Error::NoBeneficiaries),
        (benes.len() > 0 && share_sum(benes) != 10_000) ==> shares_error(benes) == Some(
            Error::InvalidShares,
        ),
{
}

/// `init` on empty storage with an interval of at least one day and a list whose
/// shares sum to 10_000 succeeds and stores exactly what it was given, with the
/// countdown started now; on an initialized vault it is refused with
/// `AlreadyInitialized`; with a shorter interval with `IntervalTooShort`; with a bad
/// list as the list's verdict says. A refused init changes nothing.
pub proof fn lemma_init_behaviour<A>(
    s: Option<VaultView<A>>,
    now: u64,
    owner: A,
    token: A,
    interval: u64,
    grace: u64,
    benes: Seq<Beneficiary<A>>,
)
    ensures
        s is Some ==> init_error(s, interval, benes) == Some(Error::AlreadyInitialized),
        (s is None && interval < 86_400) ==> init_error(s, interval, benes) == Some(
            Error::IntervalTooShort,
        ),
        (s is None && interval >= 86_400) ==> init_error(s, interval, benes) == shares_error(
            benes,
        ),
        init_error(s, interval, benes) is None <==> (s is None && interval >= 86_400
            && benes.len() > 0 && share_sum(benes) == 10_000),
        init_error(s, interval, benes) is None ==> step(
            s,
            (Op::Init { now, owner, token, interval, grace, beneficiaries: benes }),
        ) == Some(
            VaultView {
                owner: owner,
                token: token,
                interval: interval,
                grace: grace,
                last_check_in: now,
                beneficiaries: benes,
                claimed: false,
            },
        ),
        init_error(s, interval, benes) is Some ==> step(
            s,
            (Op::Init { now, owner, token, interval, grace, beneficiaries: benes }),
        ) == s,
{
}

/// A check-in succeeds exactly on an initialized vault, where it moves the last
/// check-in to now and changes nothing else; on empty storage it is refused with
/// `NotInitialized`.
pub proof fn lemma_check_in_behaviour<A>(s: Option<VaultView<A>>, now: u64)
    ensures
        initialized_error(s) is None <==> s is Some,
        s is None ==> initialized_error(s) == Some(Error::NotInitialized),
        s is Some ==> step(s, (Op::CheckIn { now })) == Some(
            VaultView { last_check_in: now, ..s->0 },
        ),
        s is None ==> step(s, (Op::CheckIn { now })) == s,
{
}

/// A withdrawal or a deposit is accepted exactly on an initialized vault with a
/// positive amount; empty storage gives `NotInitialized`, a non-positive amount
/// `InvalidAmount`. An accepted withdrawal moves the last check-in to now and
/// changes nothing else; a deposit never changes the vault.
pub proof fn lemma_amount_behaviour<A>(s: Option<VaultView<A>>, now: u64, amount: i128)
    ensures
        amount_error(s, amount) is None <==> (s is Some && amount > 0),
        s is None ==> amount_error(s, amount) == Some(Error::NotInitialized),
        (s is Some && amount <= 0) ==> amount_error(s, amount) == Some(Error::InvalidAmount),
        (s is Some && amount > 0) ==> step(s, (Op::Withdraw { now, amount })) == Some(
            VaultView { last_check_in: now, ..s->0 },
        ),
        !(s is Some && amount > 0) ==> step(s, (Op::Withdraw { now, amount })) == s,
        step(s, (Op::Deposit { amount })) == s,
{
}

/// On an initialized vault, replacing the heirs succeeds exactly when the new list
/// is non-empty and its shares sum to 10_000, whatever the current list is (heirs
/// may be added, removed or reweighted); it then stores exactly the new list, moves
/// the last check-in to now, and changes nothing else. A refused change keeps the
/// vault as it was.
pub proof fn lemma_set_beneficiaries_behaviour<A>(
    s: Option<VaultView<A>>,
    now: u64,
    benes: Seq<Beneficiary<A>>,
)
    ensures
        s is None ==> set_beneficiaries_error(s, benes) == Some(Error::NotInitialized),
        s is Some ==> set_beneficiaries_error(s, benes) == shares_error(benes),
        s is Some ==> (set_beneficiaries_error(s, benes) is None <==> (benes.len() > 0
            && share_sum(benes) == 10_000)),
        (s is Some && benes.len() > 0 && share_sum(benes) == 10_000) ==> step(
            s,
            (Op::SetBeneficiaries { now, beneficiaries: benes }),
        ) == Some(VaultView { beneficiaries: benes, last_check_in: now, ..s->0 }),
        set_beneficiaries_error(s, benes) is Some ==> step(
            s,
            (Op::SetBeneficiaries { now, beneficiaries: benes }),
        ) == s,
{
}

/// On an initialized vault, changing the schedule succeeds exactly when the new
/// interval is at least one day, whether it is longer or shorter than the current
/// one; it then stores the new interval and grace, moves the last check-in to now,
/// so the deadline becomes now + interval + grace, and changes nothing else. A
/// shorter interval is refused with `IntervalTooShort` and changes nothing.
pub proof fn lemma_set_schedule_behaviour<A>(
    s: Option<VaultView<A>>,
    now: u64,
    interval: u64,
    grace: u64,
)
    ensures
        s is None ==> set_schedule_error(s, interval) == Some(Error::NotInitialized),
        s is Some ==> (set_schedule_error(s, interval) is None <==> interval >= 86_400),
        (s is Some && interval < 86_400) ==> set_schedule_error(s, interval) == Some(
            Error::IntervalTooShort,
        ),
        (s is Some && interval >= 86_400) ==> step(
            s,
            (Op::SetSchedule { now, interval, grace }),
        ) == Some(VaultView { interval: interval, grace: grace, last_check_in: now, ..s->0 }),
        (s is Some && interval >= 86_400) ==> deadline_value(
            step(s, (Op::SetSchedule { now, interval, grace })),
        ) == now + interval + grace,
        set_schedule_error(s, interval) is Some ==> step(
            s,
            (Op::SetSchedule { now, interval, grace }),
        ) == s,
{
}

/// The read-only views on their inputs: the deadline is last check-in plus interval
/// plus grace (0 on empty storage); the time left is the deadline minus now before
/// the deadline and 0 from it on, so `now + time_left` is the deadline; the vault is
/// claimable exactly when it is initialized, unclaimed and its deadline has
/// passed; its status is `Claimed`, `Claimable` or `Active` accordingly.
pub proof fn lemma_views_on_inputs<A>(s: Option<VaultView<A>>, now: u64)
    ensures
        s is None ==> deadline_value(s) == 0,
        s is Some ==> deadline_value(s) == s->0.last_check_in + s->0.interval + s->0.grace,
        now < deadline_value(s) ==> time_left_at(s, now) == deadline_value(s) - now,
        now < deadline_value(s) ==> now + time_left_at(s, now) == deadline_value(s),
        now >= deadline_value(s) ==> time_left_at(s, now) == 0,
        (s is Some && now < s->0.last_check_in + s->0.interval + s->0.grace) ==> time_left_at(
            s,
            now,
        ) == s->0.last_check_in + s->0.interval + s->0.grace - now,
        s is None ==> !claimable_at(s, now),
        s is Some ==> (claimable_at(s, now) <==> (!s->0.claimed && now >= s->0.last_check_in
            + s->0.interval + s->0.grace)),
        s is None ==> status_at(s, now) == VaultStatus::Active,
        (s is Some && s->0.claimed) ==> status_at(s, now) == VaultStatus::Claimed,
        (s is Some && !s->0.claimed && now >= s->0.last_check_in + s->0.interval
            + s->0.grace) ==> status_at(s, now) == VaultStatus::Claimable,
        (s is Some && !s->0.claimed && now < s->0.last_check_in + s->0.interval + s->0.grace)
            ==> status_at(s, now) == VaultStatus::Active,
{
}

/// A claim on its inputs: refused with `NotInitialized` on empty storage, with
/// `AlreadyClaimed` once claimed, with `NotYetClaimable` before last check-in plus
/// interval plus grace, with `NothingToDistribute` when the balance is not positive,
/// and otherwise accepted, after which the vault is marked claimed and nothing else
/// changes. A refused claim changes nothing.
pub proof fn lemma_claim_behaviour<A>(s: Option<VaultView<A>>, now: u64, balance: i128)
    ensures
        s is None ==> claim_result(s, now, balance) == Err::<Seq<Payout>, Error>(
            Error::NotInitialized,
        ),
        (s is Some && s->0.claimed) ==> claim_result(s, now, balance) == Err::<
            Seq<Payout>,
            Error,
        >(Error::AlreadyClaimed),
        (s is Some && !s->0.claimed && now < s->0.last_check_in + s->0.interval + s->0.grace)
            ==> claim_result(s, now, balance) == Err::<Seq<Payout>, Error>(
            Error::NotYetClaimable,
        ),
        (s is Some && !s->0.claimed && now >= s->0.last_check_in + s->0.interval + s->0.grace
            && balance <= 0) ==> claim_result(s, now, balance) == Err::<Seq<Payout>, Error>(
            Error::NothingToDistribute,
        ),
        (s is Some && !s->0.claimed && now >= s->0.last_check_in + s->0.interval + s->0.grace
            && balance > 0) ==> claim_result(s, now, balance) == Ok::<Seq<Payout>, Error>(
            payout_plan(s->0.beneficiaries, balance as int),
        ),
        claim_result(s, now, balance) is Ok ==> after_claim(s, now, balance) == Some(
            VaultView { claimed: true, ..s->0 },
        ),
        claim_result(s, now, balance) is Err ==> after_claim(s, now, balance) == s,
        step(s, (Op::Claim { now, balance })) == after_claim(s, now, balance),
{
}

/// Every heir but the last receives its share of the balance rounded down,
/// `balance * share / 10_000`.
pub proof fn lemma_share_amounts<A>(benes: Seq<Beneficiary<A>>, total: int, i: int)
    requires
        0 <= i < benes.len() - 1,
    ensures
        payout_amount(benes, total, i) == total * benes[i].share_bps / 10_000,
{
}

proof fn lemma_payouts_upto_complete<A>(benes: Seq<Beneficiary<A>>, total: int, k: int, i: int)
    requires
        0 <= i < k <= benes.len(),
        benes.len() <= usize::MAX,
        payout_amount(benes, total, i) > 0,
    ensures
        exists|j: int|
            0 <= j < payouts_upto(benes, total, k).len() && (#[trigger] payouts_upto(
                benes,
                total,
                k,
            )[j]).beneficiary == i,
    decreases k,
{
    let prev = payouts_upto(benes, total, k - 1);
    let cur = payouts_upto(benes, total, k);
    let amount = payout_amount(benes, total, k - 1);
    let p = Payout { beneficiary: (k - 1) as usize, amount: amount as i128 };
    if i < k - 1 {
        lemma_payouts_upto_complete(benes, total, k - 1, i);
        let j = choose|j: int| 0 <= j < prev.len() && (#[trigger] prev[j]).beneficiary == i;
        if amount > 0 {
            assert(cur == prev.push(p));
            assert(cur[j] == prev[j]);
        } else {
            assert(cur == prev);
        }
        assert(0 <= j < cur.len() && cur[j].beneficiary == i);
    } else {
        assert(cur == prev.push(p));
        assert(cur[prev.len() as int].beneficiary == i);
    }
}

/// No heir with something to receive is left out: every beneficiary whose amount
/// is positive gets a transfer in the claim.
pub proof fn lemma_payout_plan_complete<A>(benes: Seq<Beneficiary<A>>, total: int, i: int)
    requires
        0 <= i < benes.len(),
        benes.len() <= usize::MAX,
        payout_amount(benes, total, i) > 0,
    ensures
        exists|j: int|
            0 <= j < payout_plan(benes, total).len() && (#[trigger] payout_plan(
                benes,
                total,
            )[j]).beneficiary == i,
{
    lemma_payouts_upto_complete(benes, total, benes.len() as int, i);
    let cur = payouts_upto(benes, total, benes.len() as int);
    assert(payout_plan(benes, total) == cur);
    let j = choose|j: int| 0 <= j < cur.len() && (#[trigger] cur[j]).beneficiary == i;
    assert(payout_plan(benes, total)[j].beneficiary == i);
}

/// The total of a list of transfers is the sum of their amounts: 0 for none, and
/// one more transfer adds exactly its amount.
pub proof fn lemma_payout_total_adds_amounts(ps: Seq<Payout>, p: Payout)
    ensures
        payout_total(Seq::<Payout>::empty()) == 0,
        payout_total(ps.push(p)) == payout_total(ps) + p.amount,
{
    assert(ps.push(p).drop_last() =~= ps);
}

/// In a valid list no heir's share exceeds 10_000 bps.
pub proof fn lemma_each_share_at_most_whole<A>(benes: Seq<Beneficiary<A>>, i: int)
    requires
        valid_shares(benes),
        0 <= i < benes.len(),
    ensures
        benes[i].share_bps <= 10_000,
{
    lemma_share_sum_remove(benes, i);
    lemma_share_sum_nonneg(benes.remove(i));
}

/// A claim computes without overflow on every well-formed vault whose deadline
/// fits in a `u64`, for any balance up to `i128::MAX / 10_000` and, with a single
/// heir, for any balance at all.
pub proof fn lemma_claim_safe_for_ordinary_balances<A>(
    s: Option<VaultView<A>>,
    now: u64,
    balance: i128,
)
    requires
        wf(s),
        deadline_fits(s),
        balance <= i128::MAX / 10_000 || (s is Some && s->0.beneficiaries.len() == 1),
    ensures
        claim_safe(s, now, balance),
{
    if s is Some && balance > 0 {
        let benes = s->0.beneficiaries;
        assert forall|i: int| 0 <= i < benes.len() - 1 implies i128::MIN <= balance * (
        #[trigger] benes[i].share_bps) <= i128::MAX by {
            lemma_each_share_at_most_whole(benes, i);
            let sh = benes[i].share_bps as int;
            let b = balance as int;
            assert(0 <= b * sh <= (i128::MAX / 10_000) * 10_000) by (nonlinear_arith)
                requires
                    0 < b <= i128::MAX / 10_000,
                    0 <= sh <= 10_000,
            ;
        }
        assert(payout_fits(benes, balance as int));
    }
}

} // verus!
