use vstd::prelude::*;

use crate::distribution::{lemma_payout_plan_shape, lemma_payout_plan_total, payout_amount, payout_total};
use crate::types::{Beneficiary, Error, Payout, VaultStatus};
use crate::vault::{
    after_claim, amount_error, claim_gate_error, claim_result, claimable_at, claimed_flag,
    deadline_value, init_error, initialized, initialized_error, set_beneficiaries_error,
    set_schedule_error, status_at, step, steps, time_left_at, touched, wf, Op, VaultView,
};

verus! {

/// A vault is initialized once: after a successful `init`, every further `init`
/// is refused with `AlreadyInitialized`.
pub proof fn lemma_init_only_once<A>(
    s: Option<VaultView<A>>,
    now: u64,
    owner: A,
    token: A,
    interval: u64,
    grace: u64,
    beneficiaries: Seq<Beneficiary<A>>,
    interval2: u64,
    beneficiaries2: Seq<Beneficiary<A>>,
)
    requires
        init_error(s, interval, beneficiaries) is None,
    ensures
        init_error(
            Some(initialized(now, owner, token, interval, grace, beneficiaries)),
            interval2,
            beneficiaries2,
        ) == Some(Error::AlreadyInitialized),
{
}

/// A claim succeeds only on an initialized, unclaimed vault whose deadline has
/// passed and which holds a positive balance.
pub proof fn lemma_claim_only_after_deadline<A>(s: Option<VaultView<A>>, now: u64, balance: i128)
    requires
        claim_result(s, now, balance) is Ok,
    ensures
        s is Some,
        !claimed_flag(s),
        now >= deadline_value(s),
        balance > 0,
{
}

/// A claim runs once: after a successful claim, every further claim, at any time
/// and with any balance, is refused with `AlreadyClaimed`.
pub proof fn lemma_claim_at_most_once<A>(
    s: Option<VaultView<A>>,
    now: u64,
    balance: i128,
    now2: u64,
    balance2: i128,
)
    requires
        claim_result(s, now, balance) is Ok,
    ensures
        claim_result(after_claim(s, now, balance), now2, balance2) == Err::<Seq<Payout>, Error>(
            Error::AlreadyClaimed,
        ),
{
}

/// Once the owner has been silent past interval plus grace, the heirs' claim of a
/// positive balance succeeds.
pub proof fn lemma_claim_succeeds_after_silence<A>(s: Option<VaultView<A>>, now: u64, balance: i128)
    requires
        s is Some,
        !claimed_flag(s),
        now >= deadline_value(s),
        balance > 0,
    ensures
        claim_result(s, now, balance) is Ok,
{
}

/// A successful claim empties the vault: its transfers add up to the whole
/// balance. They go only to configured beneficiaries, each at most once and in
/// list order, each of a positive amount: its rounded-down share, or for the last
/// beneficiary the remainder.
pub proof fn lemma_claim_pays_whole_balance<A>(s: Option<VaultView<A>>, now: u64, balance: i128)
    requires
        wf(s),
        s is Some ==> s->0.beneficiaries.len() <= usize::MAX,
        claim_result(s, now, balance) is Ok,
    ensures
        ({
            let ps = claim_result(s, now, balance)->Ok_0;
            let benes = s->0.beneficiaries;
            &&& payout_total(ps) == balance
            &&& forall|j: int|
                0 <= j < ps.len() ==> {
                    &&& (#[trigger] ps[j]).beneficiary < benes.len()
                    &&& ps[j].amount > 0
                    &&& ps[j].amount == payout_amount(
                        benes,
                        balance as int,
                        ps[j].beneficiary as int,
                    )
                }
            &&& forall|j1: int, j2: int|
                0 <= j1 < j2 < ps.len() ==> (#[trigger] ps[j1]).beneficiary < (#[trigger] ps[j2]).beneficiary
        }),
{
    lemma_payout_plan_total(s->0.beneficiaries, balance as int);
    lemma_payout_plan_shape(s->0.beneficiaries, balance as int);
}

/// Whoever triggers a claim, and whenever, cannot change the outcome: two
/// successful claims of the same vault and balance make the same transfers.
pub proof fn lemma_claim_outcome_fixed<A>(
    s: Option<VaultView<A>>,
    now1: u64,
    now2: u64,
    balance: i128,
)
    requires
        claim_result(s, now1, balance) is Ok,
        claim_result(s, now2, balance) is Ok,
    ensures
        claim_result(s, now1, balance) == claim_result(s, now2, balance),
{
}

/// A living owner can always stop a payout: after a sign of life at `t` (a
/// check-in, a withdrawal, a change of heirs), no claim succeeds before
/// `t + interval + grace`.
pub proof fn lemma_sign_of_life_stops_payout<A>(
    s: Option<VaultView<A>>,
    t: u64,
    now: u64,
    balance: i128,
)
    requires
        s is Some,
        !claimed_flag(s),
        now < t + s->0.interval + s->0.grace,
    ensures
        claim_result(Some(touched(s->0, t)), now, balance) == Err::<Seq<Payout>, Error>(
            Error::NotYetClaimable,
        ),
        deadline_value(Some(touched(s->0, t))) == t + s->0.interval + s->0.grace,
{
}

/// The read-only views agree with each other and with `claim`: the vault is
/// claimable exactly when a claim passes its checks on the vault's state, exactly
/// when its status is `Claimable`; its status is `Claimed` exactly when it has been
/// claimed; and an initialized, unclaimed vault is `Active` exactly while time is
/// left before the deadline.
pub proof fn lemma_views_agree<A>(s: Option<VaultView<A>>, now: u64)
    ensures
        claimable_at(s, now) <==> claim_gate_error(s, now) is None,
        claimable_at(s, now) <==> status_at(s, now) == VaultStatus::Claimable,
        claimed_flag(s) <==> status_at(s, now) == VaultStatus::Claimed,
        (s is Some && !claimed_flag(s)) ==> (status_at(s, now) == VaultStatus::Active
            <==> time_left_at(s, now) > 0),
        time_left_at(s, now) == 0 <==> now >= deadline_value(s),
{
}

/// Every call keeps the vault's invariant, so every vault that a sequence of calls
/// builds from empty storage is well formed.
pub proof fn lemma_steps_keep_wf<A>(s: Option<VaultView<A>>, ops: Seq<Op<A>>)
    requires
        wf(s),
    ensures
        wf(steps(s, ops)),
    decreases ops.len(),
{
    if ops.len() > 0 {
        lemma_steps_keep_wf(s, ops.drop_last());
    }
}

/// Once initialized, a vault stays initialized, keeps its owner and its token
/// whatever calls follow, and refuses every further `init`.
pub proof fn lemma_owner_and_token_fixed<A>(
    s: Option<VaultView<A>>,
    ops: Seq<Op<A>>,
    interval: u64,
    beneficiaries: Seq<Beneficiary<A>>,
)
    requires
        s is Some,
    ensures
        steps(s, ops) is Some,
        steps(s, ops)->0.owner == s->0.owner,
        steps(s, ops)->0.token == s->0.token,
        init_error(steps(s, ops), interval, beneficiaries) == Some(Error::AlreadyInitialized),
    decreases ops.len(),
{
    if ops.len() > 0 {
        lemma_owner_and_token_fixed(s, ops.drop_last(), interval, beneficiaries);
    }
}

/// Claimed is terminal: once the balance has been distributed, whatever calls
/// follow, the vault stays claimed, reads as `Claimed` and not claimable, and
/// every claim is refused with `AlreadyClaimed`, so the payout runs once.
pub proof fn lemma_claimed_is_terminal<A>(
    s: Option<VaultView<A>>,
    ops: Seq<Op<A>>,
    now: u64,
    balance: i128,
)
    requires
        claimed_flag(s),
    ensures
        steps(s, ops) is Some,
        claimed_flag(steps(s, ops)),
        status_at(steps(s, ops), now) == VaultStatus::Claimed,
        !claimable_at(steps(s, ops), now),
        claim_result(steps(s, ops), now, balance) == Err::<Seq<Payout>, Error>(
            Error::AlreadyClaimed,
        ),
    decreases ops.len(),
{
    if ops.len() > 0 {
        lemma_claimed_is_terminal(s, ops.drop_last(), now, balance);
    }
}

/// After a successful claim, whatever calls follow, every claim is refused.
pub proof fn lemma_claim_once_in_any_history<A>(
    s: Option<VaultView<A>>,
    now: u64,
    balance: i128,
    ops: Seq<Op<A>>,
    now2: u64,
    balance2: i128,
)
    requires
        claim_result(s, now, balance) is Ok,
    ensures
        claim_result(steps(after_claim(s, now, balance), ops), now2, balance2) == Err::<
            Seq<Payout>,
            Error,
        >(Error::AlreadyClaimed),
{
    lemma_claimed_is_terminal(after_claim(s, now, balance), ops, now2, balance2);
}

/// The heirs of the last `set_beneficiaries` among `ops` that was accepted, or
/// those the vault had before `ops` if none was.
pub open spec fn last_accepted_heirs<A>(s: Option<VaultView<A>>, ops: Seq<Op<A>>) -> Seq<
    Beneficiary<A>,
>
    decreases ops.len(),
{
    if ops.len() == 0 {
        s->0.beneficiaries
    } else {
        match ops.last() {
            Op::SetBeneficiaries { now, beneficiaries } => {
                if set_beneficiaries_error(steps(s, ops.drop_last()), beneficiaries) is None {
                    beneficiaries
                } else {
                    last_accepted_heirs(s, ops.drop_last())
                }
            },
            _ => last_accepted_heirs(s, ops.drop_last()),
        }
    }
}

/// The stored heirs are always those of the last accepted change of heirs: no
/// other call, and no refused change, touches them.
pub proof fn lemma_heirs_are_last_accepted<A>(s: Option<VaultView<A>>, ops: Seq<Op<A>>)
    requires
        s is Some,
    ensures
        steps(s, ops)->0.beneficiaries == last_accepted_heirs(s, ops),
    decreases ops.len(),
{
    if ops.len() > 0 {
        lemma_heirs_are_last_accepted(s, ops.drop_last());
        lemma_owner_and_token_fixed(s, ops.drop_last(), 0, Seq::empty());
    }
}

/// The call `op` is an owner action that succeeds on the vault `s`: a check-in, a
/// withdrawal, a change of heirs or a change of schedule that is not refused.
pub open spec fn sign_of_life<A>(s: Option<VaultView<A>>, op: Op<A>) -> bool {
    match op {
        Op::CheckIn { now } => initialized_error(s) is None,
        Op::Withdraw { now, amount } => amount_error(s, amount) is None,
        Op::SetBeneficiaries { now, beneficiaries } => set_beneficiaries_error(s, beneficiaries)
            is None,
        Op::SetSchedule { now, interval, grace } => set_schedule_error(s, interval) is None,
        _ => false,
    }
}

/// The time of the call `op`, for the calls that carry one.
pub open spec fn op_time<A>(op: Op<A>) -> u64 {
    match op {
        Op::Init { now, .. } => now,
        Op::CheckIn { now } => now,
        Op::Withdraw { now, .. } => now,
        Op::SetBeneficiaries { now, .. } => now,
        Op::SetSchedule { now, .. } => now,
        Op::Deposit { .. } => 0,
        Op::Claim { now, .. } => now,
    }
}

/// The time of the last successful owner action among `ops`, or the vault's last
/// check-in before `ops` if there was none.
pub open spec fn last_sign_of_life<A>(s: Option<VaultView<A>>, ops: Seq<Op<A>>) -> u64
    decreases ops.len(),
{
    if ops.len() == 0 {
        s->0.last_check_in
    } else if sign_of_life(steps(s, ops.drop_last()), ops.last()) {
        op_time(ops.last())
    } else {
        last_sign_of_life(s, ops.drop_last())
    }
}

/// Exactly the owner's actions restart the countdown: the last check-in is the
/// time of the last successful owner action. Deposits, claims and refused calls
/// never move it.
pub proof fn lemma_only_owner_actions_restart_countdown<A>(
    s: Option<VaultView<A>>,
    ops: Seq<Op<A>>,
)
    requires
        s is Some,
    ensures
        steps(s, ops)->0.last_check_in == last_sign_of_life(s, ops),
        deadline_value(steps(s, ops)) == last_sign_of_life(s, ops) + steps(s, ops)->0.interval
            + steps(s, ops)->0.grace,
    decreases ops.len(),
{
    if ops.len() > 0 {
        lemma_only_owner_actions_restart_countdown(s, ops.drop_last());
        lemma_owner_and_token_fixed(s, ops.drop_last(), 0, Seq::empty());
    }
}

} // verus!
