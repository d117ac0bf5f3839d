//! The vault's rules on concrete values: each error, the edge cases, and one case
//! of each law.

use inherit_vault::distribution::{distribute, payouts_fit};
use inherit_vault::shares::validate_beneficiaries;
use inherit_vault::types::{Beneficiary, Error, Payout, VaultStatus, BPS_DENOM, MIN_INTERVAL};
use inherit_vault::vault::InheritVault;

const DAY: u64 = 86_400;
const T0: u64 = 1_000_000;

fn bene(addr: u32, bps: u32) -> Beneficiary<u32> {
    Beneficiary { address: addr, share_bps: bps }
}

fn started(interval: u64, grace: u64, benes: Vec<Beneficiary<u32>>) -> InheritVault<u32> {
    let mut v = InheritVault::new();
    v.init(T0, 1, 2, interval, grace, benes).unwrap();
    v
}

#[test]
fn error_codes_match_the_contract() {
    let all = [
        (Error::AlreadyInitialized, 1),
        (Error::NotInitialized, 2),
        (Error::IntervalTooShort, 3),
        (Error::InvalidShares, 4),
        (Error::NoBeneficiaries, 5),
        (Error::NotYetClaimable, 6),
        (Error::AlreadyClaimed, 7),
        (Error::InvalidAmount, 8),
        (Error::NothingToDistribute, 9),
    ];
    for (e, code) in all {
        assert_eq!(e.code(), code);
    }
}

#[test]
fn validation_refuses_empty_list_first() {
    let empty: Vec<Beneficiary<u32>> = vec![];
    assert_eq!(validate_beneficiaries(&empty), Err(Error::NoBeneficiaries));
    let mut v = InheritVault::new();
    assert_eq!(v.init(T0, 1, 2, DAY, 0, vec![]), Err(Error::NoBeneficiaries));
    assert!(v.data.is_none());
}

#[test]
fn validation_saturates_on_huge_shares() {
    // The exact sum wraps to 10_000 in u32 arithmetic; the saturating sum does not.
    let benes = vec![bene(1, u32::MAX), bene(2, 10_001)];
    assert_eq!(validate_beneficiaries(&benes), Err(Error::InvalidShares));
    let benes = vec![bene(1, u32::MAX), bene(2, u32::MAX)];
    assert_eq!(validate_beneficiaries(&benes), Err(Error::InvalidShares));
    let ok = vec![bene(1, 1), bene(2, 9_999)];
    assert_eq!(validate_beneficiaries(&ok), Ok(()));
}

#[test]
fn interval_floor_is_one_day() {
    let mut v = InheritVault::new();
    assert_eq!(v.init(T0, 1, 2, MIN_INTERVAL - 1, 0, vec![bene(3, BPS_DENOM)]), Err(Error::IntervalTooShort));
    assert_eq!(v.init(T0, 1, 2, MIN_INTERVAL, 0, vec![bene(3, BPS_DENOM)]), Ok(()));
    assert!(v.is_well_formed());
}

#[test]
fn interval_checked_before_shares() {
    let mut v = InheritVault::new();
    assert_eq!(v.init(T0, 1, 2, 10, 0, vec![bene(3, 5)]), Err(Error::IntervalTooShort));
}

#[test]
fn uninitialized_vault_refuses_owner_actions() {
    let mut v: InheritVault<u32> = InheritVault::new();
    assert_eq!(v.require_initialized(), Err(Error::NotInitialized));
    assert_eq!(v.require_owner(), Err(Error::NotInitialized));
    assert_eq!(v.check_in(T0), Err(Error::NotInitialized));
    assert_eq!(v.withdraw(T0, 5), Err(Error::NotInitialized));
    assert_eq!(v.set_beneficiaries(T0, vec![bene(1, 10_000)]), Err(Error::NotInitialized));
    assert_eq!(v.set_schedule(T0, DAY, 0), Err(Error::NotInitialized));
    assert_eq!(v.deposit(5), Err(Error::NotInitialized));
    assert_eq!(v.claim(T0, 5), Err(Error::NotInitialized));
    assert!(v.data.is_none());
}

#[test]
fn uninitialized_vault_views() {
    // Empty storage reads as zero, but a vault that was never initialized holds
    // nothing that could be claimed.
    let v: InheritVault<u32> = InheritVault::new();
    assert_eq!(v.deadline(), 0);
    assert_eq!(v.last_check_in(), 0);
    assert_eq!(v.time_left(T0), 0);
    assert_eq!(v.is_claimed(), false);
    assert_eq!(v.is_claimable(T0), false);
    assert_eq!(v.status(T0), VaultStatus::Active);
    assert_eq!(v.deadline_checked(), Some(0));
}

#[test]
fn invalid_amounts_refused() {
    let mut v = started(DAY, 0, vec![bene(3, 10_000)]);
    assert_eq!(v.deposit(0), Err(Error::InvalidAmount));
    assert_eq!(v.deposit(-5), Err(Error::InvalidAmount));
    assert_eq!(v.withdraw(T0 + 10, 0), Err(Error::InvalidAmount));
    // A refused withdrawal is no sign of life.
    assert_eq!(v.last_check_in(), T0);
    assert_eq!(v.deposit(1), Ok(()));
}

#[test]
fn deposit_does_not_reset_countdown() {
    let v = started(DAY, 0, vec![bene(3, 10_000)]);
    assert_eq!(v.deposit(500), Ok(()));
    assert_eq!(v.last_check_in(), T0);
    assert_eq!(v.deadline(), T0 + DAY);
}

#[test]
fn set_schedule_changes_cadence_and_resets_timer() {
    let mut v = started(DAY, 0, vec![bene(3, 10_000)]);
    assert_eq!(v.set_schedule(T0 + 5, 100, 7), Err(Error::IntervalTooShort));
    assert_eq!(v.deadline(), T0 + DAY);
    assert_eq!(v.set_schedule(T0 + 5, 2 * DAY, 7), Ok(()));
    assert_eq!(v.deadline(), T0 + 5 + 2 * DAY + 7);
    assert_eq!(v.last_check_in(), T0 + 5);
}

#[test]
fn views_report_configuration() {
    let v = started(DAY, 3, vec![bene(3, 4_000), bene(4, 6_000)]);
    assert_eq!(*v.owner(), 1);
    assert_eq!(*v.token(), 2);
    assert_eq!(*v.require_owner().unwrap(), 1);
    assert_eq!(v.beneficiaries(), &vec![bene(3, 4_000), bene(4, 6_000)]);
    assert_eq!(v.time_left(T0 + 10), DAY + 3 - 10);
    assert_eq!(v.time_left(T0 + DAY + 3), 0);
}

#[test]
fn grace_period_delays_claim() {
    let mut v = started(DAY, 7, vec![bene(3, 10_000)]);
    assert_eq!(v.claim(T0 + DAY, 100), Err(Error::NotYetClaimable));
    assert_eq!(v.claim(T0 + DAY + 6, 100), Err(Error::NotYetClaimable));
    assert_eq!(v.status(T0 + DAY + 6), VaultStatus::Active);
    assert_eq!(v.claim(T0 + DAY + 7, 100), Ok(vec![Payout { beneficiary: 0, amount: 100 }]));
}

#[test]
fn check_in_stops_payout() {
    let mut v = started(DAY, 0, vec![bene(3, 10_000)]);
    // Past the deadline, the owner checks in: the countdown starts again.
    assert_eq!(v.is_claimable(T0 + 2 * DAY), true);
    assert_eq!(v.check_in(T0 + 2 * DAY), Ok(()));
    assert_eq!(v.is_claimable(T0 + 2 * DAY), false);
    assert_eq!(v.claim(T0 + 3 * DAY - 1, 100), Err(Error::NotYetClaimable));
    assert!(v.claim(T0 + 3 * DAY, 100).is_ok());
}

#[test]
fn claim_runs_once_and_owner_keeps_acting() {
    let mut v = started(DAY, 0, vec![bene(3, 10_000)]);
    assert_eq!(v.claim(T0 + DAY, 0), Err(Error::NothingToDistribute));
    assert_eq!(v.status(T0 + DAY), VaultStatus::Claimable);
    assert!(v.claim(T0 + DAY, 50).is_ok());
    assert_eq!(v.status(T0 + DAY), VaultStatus::Claimed);
    assert_eq!(v.is_claimable(T0 + DAY), false);
    assert_eq!(v.claim(T0 + 5 * DAY, 50), Err(Error::AlreadyClaimed));
    // The claimed flag stays; a later check-in is accepted but changes nothing of it.
    assert_eq!(v.check_in(T0 + 6 * DAY), Ok(()));
    assert_eq!(v.status(T0 + 6 * DAY), VaultStatus::Claimed);
    assert_eq!(v.claim(T0 + 9 * DAY, 50), Err(Error::AlreadyClaimed));
}

#[test]
fn split_skips_zero_amounts_and_pays_everything() {
    let benes = vec![bene(1, 1), bene(2, 9_998), bene(3, 1)];
    // 5 * 1 / 10000 = 0; 5 * 9998 / 10000 = 4; the last gets 5 - 4 = 1.
    let ps = distribute(&benes, 5);
    assert_eq!(ps, vec![Payout { beneficiary: 1, amount: 4 }, Payout { beneficiary: 2, amount: 1 }]);
    let total: i128 = ps.iter().map(|p| p.amount).sum();
    assert_eq!(total, 5);
    // The last beneficiary with a zero share still takes the rounding remainder.
    let ps = distribute(&vec![bene(1, 10_000), bene(2, 0)], 7);
    assert_eq!(ps, vec![Payout { beneficiary: 0, amount: 7 }]);
    let ps = distribute(&vec![bene(1, 3_333), bene(2, 3_333), bene(3, 3_334)], 10);
    assert_eq!(
        ps,
        vec![
            Payout { beneficiary: 0, amount: 3 },
            Payout { beneficiary: 1, amount: 3 },
            Payout { beneficiary: 2, amount: 4 },
        ]
    );
}

#[test]
fn split_overflow_is_detected() {
    let benes = vec![bene(1, 5_000), bene(2, 5_000)];
    assert!(payouts_fit(&benes, 1_000_000));
    assert!(!payouts_fit(&benes, i128::MAX));
    // A single beneficiary's share is never multiplied.
    assert!(payouts_fit(&vec![bene(1, 10_000)], i128::MAX));
    let mut v = started(DAY, 0, vec![bene(1, 10_000)]);
    assert_eq!(v.claim(T0 + DAY, i128::MAX), Ok(vec![Payout { beneficiary: 0, amount: i128::MAX }]));
}

#[test]
fn deadline_overflow_is_detected() {
    let v = started(DAY, u64::MAX - DAY, vec![bene(1, 10_000)]);
    assert_eq!(v.deadline_checked(), None);
    let v = started(DAY, 5, vec![bene(1, 10_000)]);
    assert_eq!(v.deadline_checked(), Some(T0 + DAY + 5));
}

#[test]
fn failed_init_leaves_vault_as_it_was() {
    let mut v = started(DAY, 0, vec![bene(3, 10_000)]);
    assert_eq!(v.init(T0 + 9, 7, 8, 5 * DAY, 1, vec![bene(9, 10_000)]), Err(Error::AlreadyInitialized));
    assert_eq!(*v.owner(), 1);
    assert_eq!(v.deadline(), T0 + DAY);
}

#[test]
fn heir_order_does_not_matter() {
    let a = vec![bene(1, 2_500), bene(2, 7_500)];
    let b = vec![bene(2, 7_500), bene(1, 2_500)];
    assert_eq!(validate_beneficiaries(&a), validate_beneficiaries(&b));
    let c = vec![bene(1, 2_500), bene(2, 7_000)];
    let d = vec![bene(2, 7_000), bene(1, 2_500)];
    assert_eq!(validate_beneficiaries(&c), Err(Error::InvalidShares));
    assert_eq!(validate_beneficiaries(&d), Err(Error::InvalidShares));
}

#[test]
fn history_keeps_owner_token_and_last_accepted_heirs() {
    let mut v = started(DAY, 0, vec![bene(3, 10_000)]);
    assert_eq!(v.set_beneficiaries(T0 + 1, vec![bene(4, 4_000), bene(5, 6_000)]), Ok(()));
    assert_eq!(v.set_beneficiaries(T0 + 2, vec![bene(6, 9_000)]), Err(Error::InvalidShares));
    assert_eq!(v.deposit(10), Ok(()));
    assert_eq!(v.set_schedule(T0 + 3, 2 * DAY, 1), Ok(()));
    assert_eq!(v.withdraw(T0 + 4, 0), Err(Error::InvalidAmount));
    assert_eq!(v.claim(T0 + 5, 10), Err(Error::NotYetClaimable));
    assert_eq!(v.init(T0 + 6, 8, 9, DAY, 0, vec![bene(7, 10_000)]), Err(Error::AlreadyInitialized));
    assert_eq!(*v.owner(), 1);
    assert_eq!(*v.token(), 2);
    assert_eq!(v.beneficiaries(), &vec![bene(4, 4_000), bene(5, 6_000)]);
    // The last successful owner action was the schedule change at T0 + 3.
    assert_eq!(v.last_check_in(), T0 + 3);
    assert_eq!(v.deadline(), T0 + 3 + 2 * DAY + 1);
}
