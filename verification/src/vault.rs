use vstd::prelude::*;

use crate::distribution::{distribute, payout_fits, payout_plan};
use crate::shares::{as_result, shares_error, valid_shares, validate_beneficiaries};
use crate::types::{Beneficiary, Error, Payout, VaultStatus, MIN_INTERVAL};

verus! {

/// What an initialized vault keeps in storage.
pub struct VaultData<A> {
    pub owner: A,
    pub token: A,
    /// Check-in cadence, in seconds.
    pub interval: u64,
    /// Extra silence tolerated after the interval, in seconds.
    pub grace: u64,
    /// Ledger time of the owner's last sign of life.
    pub last_check_in: u64,
    pub beneficiaries: Vec<Beneficiary<A>>,
    /// Set once the balance has been distributed.
    pub claimed: bool,
}

/// The mathematical model of an initialized vault.
pub struct VaultView<A> {
    pub owner: A,
    pub token: A,
    pub interval: u64,
    pub grace: u64,
    pub last_check_in: u64,
    pub beneficiaries: Seq<Beneficiary<A>>,
    pub claimed: bool,
}

impl<A> View for VaultData<A> {
    type V = VaultView<A>;

    open spec fn view(&self) -> VaultView<A> {
        VaultView {
            owner: self.owner,
            token: self.token,
            interval: self.interval,
            grace: self.grace,
            last_check_in: self.last_check_in,
            beneficiaries: self.beneficiaries@,
            claimed: self.claimed,
        }
    }
}

/// One vault: one owner, one token, one list of heirs. `data` is `None` until the
/// vault is initialized, as the contract's storage is empty until then.
pub struct InheritVault<A> {
    pub data: Option<VaultData<A>>,
}

impl<A> View for InheritVault<A> {
    type V = Option<VaultView<A>>;

    open spec fn view(&self) -> Option<VaultView<A>> {
        match self.data {
            Some(d) => Some(d@),
            None => None,
        }
    }
}

// ---------------------------------------------------------------------------
// The model
// ---------------------------------------------------------------------------

/// The vault's invariant: an initialized vault has an interval of at least one day
/// and a non-empty beneficiary list whose shares sum to exactly 100%.
pub open spec fn wf<A>(s: Option<VaultView<A>>) -> bool {
    match s {
        Some(v) => v.interval >= MIN_INTERVAL && valid_shares(v.beneficiaries),
        None => true,
    }
}

/// The ledger time from which the vault can be claimed: last check-in plus
/// interval plus grace (0 for a vault that was never initialized).
pub open spec fn deadline_value<A>(s: Option<VaultView<A>>) -> int {
    match s {
        Some(v) => v.last_check_in + v.interval + v.grace,
        None => 0,
    }
}

/// The deadline can be computed in a `u64`.
pub open spec fn deadline_fits<A>(s: Option<VaultView<A>>) -> bool {
    deadline_value(s) <= u64::MAX
}

/// The vault's balance has been distributed.
pub open spec fn claimed_flag<A>(s: Option<VaultView<A>>) -> bool {
    match s {
        Some(v) => v.claimed,
        None => false,
    }
}

/// The owner's last sign of life (0 for a vault that was never initialized).
pub open spec fn last_check_in_value<A>(s: Option<VaultView<A>>) -> u64 {
    match s {
        Some(v) => v.last_check_in,
        None => 0,
    }
}

/// Funds can be claimed at time `now`: the vault is initialized, not yet claimed,
/// and its deadline has passed.
pub open spec fn claimable_at<A>(s: Option<VaultView<A>>, now: u64) -> bool {
    s is Some && !claimed_flag(s) && now >= deadline_value(s)
}

/// The lifecycle status at time `now`. A vault that was never initialized holds
/// nothing that could be claimed, so it reads as `Active`.
pub open spec fn status_at<A>(s: Option<VaultView<A>>, now: u64) -> VaultStatus {
    if claimed_flag(s) {
        VaultStatus::Claimed
    } else if s is Some && now >= deadline_value(s) {
        VaultStatus::Claimable
    } else {
        VaultStatus::Active
    }
}

/// Seconds left until the deadline at time `now` (0 once it is reached).
pub open spec fn time_left_at<A>(s: Option<VaultView<A>>, now: u64) -> int {
    if now >= deadline_value(s) {
        0
    } else {
        deadline_value(s) - now
    }
}

/// The same vault with the owner's countdown restarted at `now`.
pub open spec fn touched<A>(v: VaultView<A>, now: u64) -> VaultView<A> {
    VaultView { last_check_in: now, ..v }
}

/// Why `init` refuses, if it does.
pub open spec fn init_error<A>(
    s: Option<VaultView<A>>,
    interval: u64,
    beneficiaries: Seq<Beneficiary<A>>,
) -> Option<Error> {
    if s is Some {
        Some(Error::AlreadyInitialized)
    } else if interval < MIN_INTERVAL {
        Some(Error::IntervalTooShort)
    } else {
        shares_error(beneficiaries)
    }
}

/// The vault that a successful `init` leaves.
pub open spec fn initialized<A>(
    now: u64,
    owner: A,
    token: A,
    interval: u64,
    grace: u64,
    beneficiaries: Seq<Beneficiary<A>>,
) -> VaultView<A> {
    VaultView {
        owner,
        token,
        interval,
        grace,
        last_check_in: now,
        beneficiaries,
        claimed: false,
    }
}

/// Why an operation that needs an initialized vault refuses: it is not initialized.
pub open spec fn initialized_error<A>(s: Option<VaultView<A>>) -> Option<Error> {
    if s is None {
        Some(Error::NotInitialized)
    } else {
        None
    }
}

/// Why `withdraw` or `deposit` of `amount` refuses, if it does.
pub open spec fn amount_error<A>(s: Option<VaultView<A>>, amount: i128) -> Option<Error> {
    if s is None {
        Some(Error::NotInitialized)
    } else if amount <= 0 {
        Some(Error::InvalidAmount)
    } else {
        None
    }
}

/// Why `set_beneficiaries` refuses, if it does.
pub open spec fn set_beneficiaries_error<A>(
    s: Option<VaultView<A>>,
    beneficiaries: Seq<Beneficiary<A>>,
) -> Option<Error> {
    if s is None {
        Some(Error::NotInitialized)
    } else {
        shares_error(beneficiaries)
    }
}

/// Why `set_schedule` refuses, if it does.
pub open spec fn set_schedule_error<A>(s: Option<VaultView<A>>, interval: u64) -> Option<Error> {
    if s is None {
        Some(Error::NotInitialized)
    } else if interval < MIN_INTERVAL {
        Some(Error::IntervalTooShort)
    } else {
        None
    }
}

/// Why a claim at time `now` is refused before the balance is looked at, if it is.
pub open spec fn claim_gate_error<A>(s: Option<VaultView<A>>, now: u64) -> Option<Error> {
    if s is None {
        Some(Error::NotInitialized)
    } else if claimed_flag(s) {
        Some(Error::AlreadyClaimed)
    } else if now < deadline_value(s) {
        Some(Error::NotYetClaimable)
    } else {
        None
    }
}

/// What a claim at time `now` with the vault holding `balance` returns: the
/// refusal, or the transfers that pay the balance out.
pub open spec fn claim_result<A>(s: Option<VaultView<A>>, now: u64, balance: i128) -> Result<
    Seq<Payout>,
    Error,
> {
    match claim_gate_error(s, now) {
        Some(e) => Err(e),
        None => if balance <= 0 {
            Err(Error::NothingToDistribute)
        } else {
            Ok(payout_plan(s->0.beneficiaries, balance as int))
        },
    }
}

/// The vault after a claim at time `now` with the vault holding `balance`.
pub open spec fn after_claim<A>(s: Option<VaultView<A>>, now: u64, balance: i128) -> Option<
    VaultView<A>,
> {
    if claim_result(s, now, balance) is Ok {
        Some(VaultView { claimed: true, ..s->0 })
    } else {
        s
    }
}

/// The inputs on which `claim` computes without overflow: the deadline when it is
/// needed, and the products of the split when there is a balance to split.
pub open spec fn claim_safe<A>(s: Option<VaultView<A>>, now: u64, balance: i128) -> bool {
    &&& (s is Some && !claimed_flag(s)) ==> deadline_fits(s)
    &&& (claim_gate_error(s, now) is None && balance > 0) ==> payout_fits(
        s->0.beneficiaries,
        balance as int,
    )
}

/// A call that can change the vault, with its arguments.
pub enum Op<A> {
    Init {
        now: u64,
        owner: A,
        token: A,
        interval: u64,
        grace: u64,
        beneficiaries: Seq<Beneficiary<A>>,
    },
    CheckIn { now: u64 },
    Withdraw { now: u64, amount: i128 },
    SetBeneficiaries { now: u64, beneficiaries: Seq<Beneficiary<A>> },
    SetSchedule { now: u64, interval: u64, grace: u64 },
    Deposit { amount: i128 },
    Claim { now: u64, balance: i128 },
}

/// The vault after the call `op`, whether it succeeds or is refused.
pub open spec fn step<A>(s: Option<VaultView<A>>, op: Op<A>) -> Option<VaultView<A>> {
    match op {
        Op::Init { now, owner, token, interval, grace, beneficiaries } => {
            if init_error(s, interval, beneficiaries) is None {
                Some(initialized(now, owner, token, interval, grace, beneficiaries))
            } else {
                s
            }
        },
        Op::CheckIn { now } => {
            if initialized_error(s) is None {
                Some(touched(s->0, now))
            } else {
                s
            }
        },
        Op::Withdraw { now, amount } => {
            if amount_error(s, amount) is None {
                Some(touched(s->0, now))
            } else {
                s
            }
        },
        Op::SetBeneficiaries { now, beneficiaries } => {
            if set_beneficiaries_error(s, beneficiaries) is None {
                Some(VaultView { beneficiaries: beneficiaries, last_check_in: now, ..s->0 })
            } else {
                s
            }
        },
        Op::SetSchedule { now, interval, grace } => {
            if set_schedule_error(s, interval) is None {
                Some(VaultView { interval: interval, grace: grace, last_check_in: now, ..s->0 })
            } else {
                s
            }
        },
        Op::Deposit { amount } => s,
        Op::Claim { now, balance } => after_claim(s, now, balance),
    }
}

/// The vault after the calls `ops`, in order.
pub open spec fn steps<A>(s: Option<VaultView<A>>, ops: Seq<Op<A>>) -> Option<VaultView<A>>
    decreases ops.len(),
{
    if ops.len() == 0 {
        s
    } else {
        step(steps(s, ops.drop_last()), ops.last())
    }
}

// ---------------------------------------------------------------------------
// Operations
// ---------------------------------------------------------------------------

impl<A> InheritVault<A> {
    /// A vault whose storage is still empty.
    pub fn new() -> (r: Self)
        ensures
            r@ is None,
    {
        InheritVault { data: None }
    }

    /// `Ok` exactly when the vault has been initialized.
    pub fn require_initialized(&self) -> (r: Result<(), Error>)
        ensures
            r == as_result(initialized_error(self@)),
    {
        match &self.data {
            Some(_) => Ok(()),
            None => Err(Error::NotInitialized),
        }
    }

    /// The owner, whose authorisation the owner-only operations need.
    pub fn require_owner(&self) -> (r: Result<&A, Error>)
        ensures
            self@ is None ==> r == Err::<&A, Error>(Error::NotInitialized),
            self@ is Some ==> r == Ok::<&A, Error>(&self@->0.owner),
    {
        match &self.data {
            Some(d) => Ok(&d.owner),
            None => Err(Error::NotInitialized),
        }
    }

    /// One-time initialization. Sets the owner, the token this vault holds, the
    /// check-in cadence, and the heirs, and starts the countdown at `now`.
    pub fn init(
        &mut self,
        now: u64,
        owner: A,
        token: A,
        interval: u64,
        grace: u64,
        beneficiaries: Vec<Beneficiary<A>>,
    ) -> (r: Result<(), Error>)
        ensures
            final(self)@ == step(
                old(self)@,
                (Op::Init { now, owner, token, interval, grace, beneficiaries: beneficiaries@ }),
            ),
            r == as_result(init_error(old(self)@, interval, beneficiaries@)),
            r is Ok ==> final(self)@ == Some(
                initialized(now, owner, token, interval, grace, beneficiaries@),
            ),
            r is Err ==> final(self)@ == old(self)@,
            wf(old(self)@) ==> wf(final(self)@),
    {
        if self.data.is_some() {
            return Err(Error::AlreadyInitialized);
        }
        if interval < MIN_INTERVAL {
            return Err(Error::IntervalTooShort);
        }
        match validate_beneficiaries(&beneficiaries) {
            Ok(()) => {},
            Err(e) => {
                return Err(e);
            },
        }
        self.data = Some(
            VaultData {
                owner,
                token,
                interval,
                grace,
                last_check_in: now,
                beneficiaries,
                claimed: false,
            },
        );
        Ok(())
    }

    /// Restarts the owner's countdown at `now`.
    fn reset_timer(&mut self, now: u64)
        requires
            old(self)@ is Some,
        ensures
            final(self)@ == Some(touched(old(self)@->0, now)),
    {
        match &mut self.data {
            Some(d) => {
                d.last_check_in = now;
            },
            None => {},
        }
    }

    /// Proof of life at `now`: restarts the countdown. Owner-only.
    pub fn check_in(&mut self, now: u64) -> (r: Result<(), Error>)
        ensures
            final(self)@ == step(old(self)@, (Op::CheckIn { now })),
            r == as_result(initialized_error(old(self)@)),
            r is Ok ==> final(self)@ == Some(touched(old(self)@->0, now)),
            r is Err ==> final(self)@ == old(self)@,
            wf(old(self)@) ==> wf(final(self)@),
    {
        if self.data.is_none() {
            return Err(Error::NotInitialized);
        }
        self.reset_timer(now);
        Ok(())
    }

    /// Withdrawal of `amount` by the owner at `now`; the tokens leave the vault
    /// when this returns `Ok`. Also counts as proof of life. Owner-only.
    pub fn withdraw(&mut self, now: u64, amount: i128) -> (r: Result<(), Error>)
        ensures
            final(self)@ == step(old(self)@, (Op::Withdraw { now, amount })),
            r == as_result(amount_error(old(self)@, amount)),
            r is Ok ==> final(self)@ == Some(touched(old(self)@->0, now)),
            r is Err ==> final(self)@ == old(self)@,
            wf(old(self)@) ==> wf(final(self)@),
    {
        if self.data.is_none() {
            return Err(Error::NotInitialized);
        }
        if amount <= 0 {
            return Err(Error::InvalidAmount);
        }
        self.reset_timer(now);
        Ok(())
    }

    /// Replaces the beneficiary list at `now`. Shares must still sum to 10_000
    /// bps. Also counts as proof of life. Owner-only.
    pub fn set_beneficiaries(&mut self, now: u64, beneficiaries: Vec<Beneficiary<A>>) -> (r:
        Result<(), Error>)
        ensures
            final(self)@ == step(
                old(self)@,
                (Op::SetBeneficiaries { now, beneficiaries: beneficiaries@ }),
            ),
            r == as_result(set_beneficiaries_error(old(self)@, beneficiaries@)),
            r is Ok ==> final(self)@ == Some(
                VaultView {
                    beneficiaries: beneficiaries@,
                    last_check_in: now,
                    ..old(self)@->0
                },
            ),
            r is Err ==> final(self)@ == old(self)@,
            wf(old(self)@) ==> wf(final(self)@),
    {
        if self.data.is_none() {
            return Err(Error::NotInitialized);
        }
        match validate_beneficiaries(&beneficiaries) {
            Ok(()) => {},
            Err(e) => {
                return Err(e);
            },
        }
        match &mut self.data {
            Some(d) => {
                d.beneficiaries = beneficiaries;
                d.last_check_in = now;
            },
            None => {},
        }
        Ok(())
    }

    /// Changes the check-in cadence at `now`. Also counts as proof of life.
    /// Owner-only.
    pub fn set_schedule(&mut self, now: u64, interval: u64, grace: u64) -> (r: Result<(), Error>)
        ensures
            final(self)@ == step(old(self)@, (Op::SetSchedule { now, interval, grace })),
            r == as_result(set_schedule_error(old(self)@, interval)),
            r is Ok ==> final(self)@ == Some(
                VaultView { interval, grace, last_check_in: now, ..old(self)@->0 },
            ),
            r is Err ==> final(self)@ == old(self)@,
            wf(old(self)@) ==> wf(final(self)@),
    {
        if self.data.is_none() {
            return Err(Error::NotInitialized);
        }
        if interval < MIN_INTERVAL {
            return Err(Error::IntervalTooShort);
        }
        match &mut self.data {
            Some(d) => {
                d.interval = interval;
                d.grace = grace;
                d.last_check_in = now;
            },
            None => {},
        }
        Ok(())
    }

    /// A deposit of `amount`; the tokens enter the vault when this returns `Ok`.
    /// Anyone can deposit. Depositing does not restart the countdown: only owner
    /// actions do, and the vault is left as it is.
    pub fn deposit(&self, amount: i128) -> (r: Result<(), Error>)
        ensures
            self@ == step(self@, (Op::Deposit { amount })),
            r == as_result(amount_error(self@, amount)),
    {
        if self.data.is_none() {
            return Err(Error::NotInitialized);
        }
        if amount <= 0 {
            return Err(Error::InvalidAmount);
        }
        Ok(())
    }

    /// Whether the vault satisfies its invariant (every vault that the operations
    /// build from `new` does).
    pub fn is_well_formed(&self) -> (r: bool)
        ensures
            r == wf(self@),
    {
        match &self.data {
            Some(d) => d.interval >= MIN_INTERVAL && validate_beneficiaries(&d.beneficiaries).is_ok(),
            None => true,
        }
    }

    /// The deadline, or `None` where it does not fit in a `u64`.
    pub fn deadline_checked(&self) -> (r: Option<u64>)
        ensures
            r == (if deadline_fits(self@) {
                Some(deadline_value(self@) as u64)
            } else {
                None::<u64>
            }),
    {
        match &self.data {
            Some(d) => match d.last_check_in.checked_add(d.interval) {
                Some(x) => x.checked_add(d.grace),
                None => None,
            },
            None => Some(0),
        }
    }

    /// The checks a claim at `now` makes before it looks at the balance: the
    /// vault is initialized, not yet claimed, and its deadline has passed.
    pub fn require_claimable(&self, now: u64) -> (r: Result<(), Error>)
        requires
            (self@ is Some && !claimed_flag(self@)) ==> deadline_fits(self@),
        ensures
            r == as_result(claim_gate_error(self@, now)),
    {
        match &self.data {
            None => Err(Error::NotInitialized),
            Some(d) => {
                if d.claimed {
                    Err(Error::AlreadyClaimed)
                } else if now < d.last_check_in + d.interval + d.grace {
                    Err(Error::NotYetClaimable)
                } else {
                    Ok(())
                }
            },
        }
    }

    /// Distributes the vault's entire `balance` to the beneficiaries by share.
    /// Anyone may call it, but it succeeds only once the deadline has passed,
    /// and the funds only ever go to the configured beneficiaries. Returns the
    /// transfers to make; the vault is then marked as claimed.
    pub fn claim(&mut self, now: u64, balance: i128) -> (r: Result<Vec<Payout>, Error>)
        requires
            wf(old(self)@),
            claim_safe(old(self)@, now, balance),
        ensures
            final(self)@ == step(old(self)@, (Op::Claim { now, balance })),
            match r {
                Ok(ps) => claim_result(old(self)@, now, balance) == Ok::<Seq<Payout>, Error>(ps@),
                Err(e) => claim_result(old(self)@, now, balance) == Err::<Seq<Payout>, Error>(e),
            },
            final(self)@ == after_claim(old(self)@, now, balance),
            wf(final(self)@),
    {
        match self.require_claimable(now) {
            Ok(()) => {},
            Err(e) => {
                return Err(e);
            },
        }
        if balance <= 0 {
            return Err(Error::NothingToDistribute);
        }
        match &mut self.data {
            Some(d) => {
                let payouts = distribute(&d.beneficiaries, balance);
                d.claimed = true;
                Ok(payouts)
            },
            None => Err(Error::NotInitialized),
        }
    }

    /// Timestamp at which the vault becomes claimable.
    pub fn deadline(&self) -> (r: u64)
        requires
            deadline_fits(self@),
        ensures
            r == deadline_value(self@),
    {
        match &self.data {
            Some(d) => d.last_check_in + d.interval + d.grace,
            None => 0,
        }
    }

    /// True once the balance has been distributed.
    pub fn is_claimed(&self) -> (r: bool)
        ensures
            r == claimed_flag(self@),
    {
        match &self.data {
            Some(d) => d.claimed,
            None => false,
        }
    }

    /// True if funds can be claimed at `now`.
    pub fn is_claimable(&self, now: u64) -> (r: bool)
        requires
            !claimed_flag(self@) ==> deadline_fits(self@),
        ensures
            r == claimable_at(self@, now),
    {
        self.data.is_some() && !self.is_claimed() && now >= self.deadline()
    }

    /// High-level lifecycle status at `now`.
    pub fn status(&self, now: u64) -> (r: VaultStatus)
        requires
            !claimed_flag(self@) ==> deadline_fits(self@),
        ensures
            r == status_at(self@, now),
    {
        if self.is_claimed() {
            VaultStatus::Claimed
        } else if self.data.is_some() && now >= self.deadline() {
            VaultStatus::Claimable
        } else {
            VaultStatus::Active
        }
    }

    /// Seconds remaining until the deadline at `now` (0 if already reached).
    pub fn time_left(&self, now: u64) -> (r: u64)
        requires
            deadline_fits(self@),
        ensures
            r == time_left_at(self@, now),
    {
        let d = self.deadline();
        if now >= d {
            0
        } else {
            d - now
        }
    }

    /// The heirs and their shares.
    pub fn beneficiaries(&self) -> (r: &Vec<Beneficiary<A>>)
        requires
            self@ is Some,
        ensures
            r@ == self@->0.beneficiaries,
    {
        match &self.data {
            Some(d) => &d.beneficiaries,
            None => {
                assert(false);
                unreached()
            },
        }
    }

    /// The vault's owner.
    pub fn owner(&self) -> (r: &A)
        requires
            self@ is Some,
        ensures
            *r == self@->0.owner,
    {
        match &self.data {
            Some(d) => &d.owner,
            None => {
                assert(false);
                unreached()
            },
        }
    }

    /// The token the vault holds.
    pub fn token(&self) -> (r: &A)
        requires
            self@ is Some,
        ensures
            *r == self@->0.token,
    {
        match &self.data {
            Some(d) => &d.token,
            None => {
                assert(false);
                unreached()
            },
        }
    }

    /// Ledger time of the owner's last sign of life (0 before initialization).
    pub fn last_check_in(&self) -> (r: u64)
        ensures
            r == last_check_in_value(self@),
    {
        match &self.data {
            Some(d) => d.last_check_in,
            None => 0,
        }
    }
}

} // verus!
