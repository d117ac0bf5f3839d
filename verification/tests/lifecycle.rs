//! The vault's lifecycle, driven the way the contract drives it: the library
//! decides, and a small ledger of token balances carries out the transfers.

use std::collections::HashMap;

use inherit_vault::types::{Beneficiary, Error, VaultStatus};
use inherit_vault::vault::InheritVault;

const DAY: u64 = 86_400;

type Addr = &'static str;

struct Vault {
    now: u64,
    vault: InheritVault<Addr>,
    balances: HashMap<Addr, i128>,
    token_addr: Addr,
    owner: Addr,
    vault_id: Addr,
}

/// A fresh vault, not yet initialized, with an owner and a token whose balances
/// start at zero. The clock starts at a non-zero timestamp.
fn new_env() -> Vault {
    Vault {
        now: 1_000_000,
        vault: InheritVault::new(),
        balances: HashMap::new(),
        token_addr: "token",
        owner: "owner",
        vault_id: "vault",
    }
}

fn bene(addr: Addr, bps: u32) -> Beneficiary<Addr> {
    Beneficiary { address: addr, share_bps: bps }
}

/// Advance the ledger clock by `secs` seconds.
fn advance(v: &mut Vault, secs: u64) {
    v.now += secs;
}

impl Vault {
    fn balance(&self, who: Addr) -> i128 {
        *self.balances.get(who).unwrap_or(&0)
    }

    fn mint(&mut self, to: Addr, amount: i128) {
        *self.balances.entry(to).or_insert(0) += amount;
    }

    fn transfer(&mut self, from: Addr, to: Addr, amount: i128) {
        assert!(self.balance(from) >= amount, "insufficient balance");
        *self.balances.entry(from).or_insert(0) -= amount;
        *self.balances.entry(to).or_insert(0) += amount;
    }

    fn init(&mut self, interval: u64, grace: u64, benes: Vec<Beneficiary<Addr>>) -> Result<(), Error> {
        let (owner, token) = (self.owner, self.token_addr);
        self.vault.init(self.now, owner, token, interval, grace, benes)
    }

    fn deposit(&mut self, from: Addr, amount: i128) -> Result<(), Error> {
        self.vault.deposit(amount)?;
        let to = self.vault_id;
        self.transfer(from, to, amount);
        Ok(())
    }

    fn withdraw(&mut self, to: Addr, amount: i128) -> Result<(), Error> {
        self.vault.withdraw(self.now, amount)?;
        let from = self.vault_id;
        self.transfer(from, to, amount);
        Ok(())
    }

    fn check_in(&mut self) -> Result<(), Error> {
        self.vault.check_in(self.now)
    }

    fn set_beneficiaries(&mut self, benes: Vec<Beneficiary<Addr>>) -> Result<(), Error> {
        self.vault.set_beneficiaries(self.now, benes)
    }

    fn claim(&mut self) -> Result<(), Error> {
        self.vault.require_claimable(self.now)?;
        let total = self.balance(self.vault_id);
        let payouts = self.vault.claim(self.now, total)?;
        for p in payouts {
            let to = self.vault.beneficiaries()[p.beneficiary].address;
            let from = self.vault_id;
            self.transfer(from, to, p.amount);
        }
        Ok(())
    }

    fn status(&self) -> VaultStatus {
        self.vault.status(self.now)
    }

    fn is_claimable(&self) -> bool {
        self.vault.is_claimable(self.now)
    }

    fn deadline(&self) -> u64 {
        self.vault.deadline()
    }
}

// ---------------------------------------------------------------------------
// Init + views
// ---------------------------------------------------------------------------

#[test]
fn init_sets_state_and_starts_active() {
    let mut v = new_env();
    let a = "a";
    v.init(90 * DAY, 7 * DAY, vec![bene(a, 10_000)]).unwrap();

    assert_eq!(*v.vault.owner(), v.owner);
    assert_eq!(v.status(), VaultStatus::Active);
    assert_eq!(v.is_claimable(), false);
    assert_eq!(v.deadline(), 1_000_000 + 90 * DAY + 7 * DAY);
}

// ---------------------------------------------------------------------------
// Init validation
// ---------------------------------------------------------------------------

#[test]
fn init_rejects_short_interval() {
    let mut v = new_env();
    let a = "a";
    // 1 hour < 1 day minimum.
    let res = v.init(3_600, 0, vec![bene(a, 10_000)]);
    assert_eq!(res, Err(Error::IntervalTooShort));
}

#[test]
fn init_rejects_bad_share_sum() {
    let mut v = new_env();
    let (a, b) = ("a", "b");
    // 5000 + 4000 = 9000 != 10000
    let res = v.init(90 * DAY, 0, vec![bene(a, 5_000), bene(b, 4_000)]);
    assert_eq!(res, Err(Error::InvalidShares));
}

#[test]
fn cannot_init_twice() {
    let mut v = new_env();
    let a = "a";
    let benes = vec![bene(a, 10_000)];
    v.init(90 * DAY, 0, benes.clone()).unwrap();

    let res = v.init(90 * DAY, 0, benes);
    assert_eq!(res, Err(Error::AlreadyInitialized));
}

// ---------------------------------------------------------------------------
// Deposit
// ---------------------------------------------------------------------------

#[test]
fn deposit_moves_funds_into_vault() {
    let mut v = new_env();
    let a = "a";
    v.init(90 * DAY, 0, vec![bene(a, 10_000)]).unwrap();

    let owner = v.owner;
    v.mint(owner, 10_000);
    v.deposit(owner, 10_000).unwrap();

    assert_eq!(v.balance(v.vault_id), 10_000);
    assert_eq!(v.balance(v.owner), 0);
}

// ---------------------------------------------------------------------------
// Check-in resets the countdown
// ---------------------------------------------------------------------------

#[test]
fn check_in_resets_deadline() {
    let mut v = new_env();
    let a = "a";
    v.init(90 * DAY, 7 * DAY, vec![bene(a, 10_000)]).unwrap();

    advance(&mut v, 80 * DAY);
    v.check_in().unwrap();

    let now = v.now;
    assert_eq!(v.deadline(), now + 90 * DAY + 7 * DAY);
    assert_eq!(v.status(), VaultStatus::Active);
}

// ---------------------------------------------------------------------------
// Claim before deadline fails
// ---------------------------------------------------------------------------

#[test]
fn claim_before_deadline_fails() {
    let mut v = new_env();
    let a = "a";
    v.init(90 * DAY, 7 * DAY, vec![bene(a, 10_000)]).unwrap();
    let owner = v.owner;
    v.mint(owner, 10_000);
    v.deposit(owner, 10_000).unwrap();

    let res = v.claim();
    assert_eq!(res, Err(Error::NotYetClaimable));
}

// ---------------------------------------------------------------------------
// Claim after deadline distributes by share
// ---------------------------------------------------------------------------

#[test]
fn claim_after_deadline_distributes_by_share() {
    let mut v = new_env();
    let (a, b) = ("a", "b");
    v.init(90 * DAY, 7 * DAY, vec![bene(a, 6_000), bene(b, 4_000)]).unwrap();
    let owner = v.owner;
    v.mint(owner, 10_000);
    v.deposit(owner, 10_000).unwrap();

    // Go silent past the deadline.
    advance(&mut v, 90 * DAY + 7 * DAY + 1);
    assert_eq!(v.is_claimable(), true);

    // Permissionless: anyone triggers it.
    v.claim().unwrap();

    assert_eq!(v.balance(a), 6_000);
    assert_eq!(v.balance(b), 4_000);
    assert_eq!(v.balance(v.vault_id), 0);
    assert_eq!(v.status(), VaultStatus::Claimed);
}

// ---------------------------------------------------------------------------
// Double claim fails
// ---------------------------------------------------------------------------

#[test]
fn double_claim_fails() {
    let mut v = new_env();
    let a = "a";
    v.init(90 * DAY, 0, vec![bene(a, 10_000)]).unwrap();
    let owner = v.owner;
    v.mint(owner, 5_000);
    v.deposit(owner, 5_000).unwrap();

    advance(&mut v, 90 * DAY + 1);
    v.claim().unwrap();

    let res = v.claim();
    assert_eq!(res, Err(Error::AlreadyClaimed));
}

// ---------------------------------------------------------------------------
// Rounding remainder goes to the last beneficiary (vault fully empties)
// ---------------------------------------------------------------------------

#[test]
fn rounding_remainder_empties_vault() {
    let mut v = new_env();
    let (a, b, c) = ("a", "b", "c");
    // Three thirds of a number not divisible by 3.
    v.init(30 * DAY, 0, vec![bene(a, 3_333), bene(b, 3_333), bene(c, 3_334)]).unwrap();
    let owner = v.owner;
    v.mint(owner, 100);
    v.deposit(owner, 100).unwrap();

    advance(&mut v, 30 * DAY + 1);
    v.claim().unwrap();

    // a: 100*3333/10000 = 33, b: 33, c: remainder = 34. Sum = 100.
    assert_eq!(v.balance(a), 33);
    assert_eq!(v.balance(b), 33);
    assert_eq!(v.balance(c), 34);
    assert_eq!(v.balance(v.vault_id), 0);
}

// ---------------------------------------------------------------------------
// Withdraw returns funds and proves life
// ---------------------------------------------------------------------------

#[test]
fn withdraw_returns_funds_and_resets_timer() {
    let mut v = new_env();
    let a = "a";
    v.init(90 * DAY, 0, vec![bene(a, 10_000)]).unwrap();
    let owner = v.owner;
    v.mint(owner, 10_000);
    v.deposit(owner, 10_000).unwrap();

    advance(&mut v, 50 * DAY);
    v.withdraw(owner, 4_000).unwrap();

    assert_eq!(v.balance(v.owner), 4_000);
    assert_eq!(v.balance(v.vault_id), 6_000);
    // Timer reset by the withdraw.
    let now = v.now;
    assert_eq!(v.deadline(), now + 90 * DAY);
}

// ---------------------------------------------------------------------------
// Owner can update beneficiaries; new split is honored on claim
// ---------------------------------------------------------------------------

#[test]
fn updated_beneficiaries_are_honored() {
    let mut v = new_env();
    let (a, b) = ("a", "b");
    v.init(30 * DAY, 0, vec![bene(a, 10_000)]).unwrap();
    let owner = v.owner;
    v.mint(owner, 1_000);
    v.deposit(owner, 1_000).unwrap();

    // Change heirs to a 50/50 split.
    v.set_beneficiaries(vec![bene(a, 5_000), bene(b, 5_000)]).unwrap();

    advance(&mut v, 30 * DAY + 1);
    v.claim().unwrap();

    assert_eq!(v.balance(a), 500);
    assert_eq!(v.balance(b), 500);
}

// ---------------------------------------------------------------------------
// set_beneficiaries rejects an invalid split
// ---------------------------------------------------------------------------

#[test]
fn set_beneficiaries_rejects_bad_sum() {
    let mut v = new_env();
    let (a, b) = ("a", "b");
    v.init(30 * DAY, 0, vec![bene(a, 10_000)]).unwrap();

    let res = v.set_beneficiaries(vec![bene(a, 5_000), bene(b, 6_000)]);
    assert_eq!(res, Err(Error::InvalidShares));
}

// ---------------------------------------------------------------------------
// Claim with an empty vault fails cleanly
// ---------------------------------------------------------------------------

#[test]
fn claim_empty_vault_fails() {
    let mut v = new_env();
    let a = "a";
    v.init(30 * DAY, 0, vec![bene(a, 10_000)]).unwrap();

    advance(&mut v, 30 * DAY + 1);
    let res = v.claim();
    assert_eq!(res, Err(Error::NothingToDistribute));
}
