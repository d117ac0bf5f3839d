use vstd::prelude::*;

use crate::types::{Beneficiary, Error, BPS_DENOM};

verus! {

/// The exact sum of the shares of `benes`, in basis points.
pub open spec fn share_sum<A>(benes: Seq<Beneficiary<A>>) -> int
    decreases benes.len(),
{
    if benes.len() == 0 {
        0
    } else {
        share_sum(benes.drop_last()) + benes.last().share_bps
    }
}

/// Why a beneficiary list is refused, if it is: an empty list first, then a list
/// whose shares do not sum to exactly 100%.
pub open spec fn shares_error<A>(benes: Seq<Beneficiary<A>>) -> Option<Error> {
    if benes.len() == 0 {
        Some(Error::NoBeneficiaries)
    } else if share_sum(benes) != BPS_DENOM {
        Some(Error::InvalidShares)
    } else {
        None
    }
}

/// A beneficiary list that the vault accepts.
pub open spec fn valid_shares<A>(benes: Seq<Beneficiary<A>>) -> bool {
    shares_error(benes) is None
}

/// `Ok` exactly when `e` is `None`, else `Err` of it.
pub open spec fn as_result(e: Option<Error>) -> Result<(), Error> {
    match e {
        Some(err) => Err(err),
        None => Ok(()),
    }
}

/// Taking one beneficiary out of the list takes its share out of the sum.
pub proof fn lemma_share_sum_remove<A>(benes: Seq<Beneficiary<A>>, k: int)
    requires
        0 <= k < benes.len(),
    ensures
        share_sum(benes) == share_sum(benes.remove(k)) + benes[k].share_bps,
    decreases benes.len(),
{
    if k == benes.len() - 1 {
        assert(benes.remove(k) =~= benes.drop_last());
    } else {
        lemma_share_sum_remove(benes.drop_last(), k);
        assert(benes.remove(k).drop_last() =~= benes.drop_last().remove(k));
        assert(benes.remove(k).last() == benes.last());
    }
}

/// The verdict on a beneficiary list does not depend on the order of the heirs:
/// two lists holding the same entries, each as often, are accepted or refused
/// alike.
pub proof fn lemma_shares_error_order_free<A>(benes: Seq<Beneficiary<A>>, other: Seq<Beneficiary<A>>)
    requires
        benes.to_multiset() == other.to_multiset(),
    ensures
        shares_error(benes) == shares_error(other),
        share_sum(benes) == share_sum(other),
    decreases benes.len(),
{
    broadcast use vstd::seq_lib::group_to_multiset_ensures;

    assert(benes.len() == other.len()) by {
        vstd::seq_lib::to_multiset_len(benes);
        vstd::seq_lib::to_multiset_len(other);
    }
    if benes.len() > 0 {
        let x = benes.last();
        assert(benes.contains(x)) by {
            assert(benes[benes.len() - 1] == x);
        }
        assert(benes.to_multiset().count(x) > 0);
        assert(other.contains(x));
        let k = choose|k: int| 0 <= k < other.len() && other[k] == x;
        let n = benes.len() - 1;
        assert(benes.remove(n) =~= benes.drop_last());
        assert(benes.drop_last().to_multiset() == benes.to_multiset().remove(x));
        assert(other.remove(k).to_multiset() == other.to_multiset().remove(x));
        lemma_shares_error_order_free(benes.drop_last(), other.remove(k));
        lemma_share_sum_remove(other, k);
    }
}

/// Checks a beneficiary list: it must be non-empty and its shares must sum to
/// exactly 10_000 bps. The running sum saturates, so hostile input cannot overflow.
pub fn validate_beneficiaries<A>(benes: &Vec<Beneficiary<A>>) -> (r: Result<(), Error>)
    ensures
        r == as_result(shares_error(benes@)),
{
    if benes.len() == 0 {
        return Err(Error::NoBeneficiaries);
    }
    let mut sum: u32 = 0;
    let n = benes.len();
    for i in 0..n
        invariant
            n == benes@.len(),
            sum == (if share_sum(benes@.take(i as int)) > u32::MAX {
                u32::MAX as int
            } else {
                share_sum(benes@.take(i as int))
            }),
    {
        assert(benes@.take(i + 1).drop_last() =~= benes@.take(i as int));
        sum = sum.saturating_add(benes[i].share_bps);
    }
    assert(benes@.take(n as int) =~= benes@);
    if sum != BPS_DENOM {
        return Err(Error::InvalidShares);
    }
    Ok(())
}

} // verus!
