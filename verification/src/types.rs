use vstd::prelude::*;

verus! {

/// Shares are expressed in basis points; they must sum to exactly 100%.
pub const BPS_DENOM: u32 = 10_000;

/// Minimum check-in interval: one day, in seconds. Prevents lock-out footguns.
pub const MIN_INTERVAL: u64 = 86_400;

/// A single heir and their share of the vault, in basis points (1% = 100 bps).
///
/// The address type is left open: the vault never inspects an address, it only
/// carries it to the transfer that pays the heir.
#[derive(Clone, Debug, PartialEq, Eq)]
pub struct Beneficiary<A> {
    pub address: A,
    pub share_bps: u32,
}

/// High-level lifecycle state.
#[derive(Clone, Copy, Debug, PartialEq, Eq, Structural)]
pub enum VaultStatus {
    /// Owner is active (or the deadline has not yet passed).
    Active,
    /// Deadline passed, funds can be claimed.
    Claimable,
    /// Funds have been distributed. Terminal.
    Claimed,
}

/// One transfer of a claim: `amount` tokens to the beneficiary at position
/// `beneficiary` of the vault's beneficiary list.
#[derive(Clone, Copy, Debug, PartialEq, Eq, Structural)]
pub struct Payout {
    pub beneficiary: usize,
    pub amount: i128,
}

/// Errors returned by the vault's operations.
#[derive(Clone, Copy, Debug, PartialEq, Eq, Structural)]
pub enum Error {
    AlreadyInitialized,
    NotInitialized,
    IntervalTooShort,
    /// Beneficiary shares do not sum to exactly 10_000 bps.
    InvalidShares,
    NoBeneficiaries,
    /// `claim` called before the deadline.
    NotYetClaimable,
    /// `claim` called on an already-distributed vault.
    AlreadyClaimed,
    InvalidAmount,
    /// The vault holds no balance to distribute.
    NothingToDistribute,
}

/// The numeric error code that the contract reports for each error.
pub open spec fn error_code(e: Error) -> u32 {
    match e {
        Error::AlreadyInitialized => 1,
        Error::NotInitialized => 2,
        Error::IntervalTooShort => 3,
        Error::InvalidShares => 4,
        Error::NoBeneficiaries => 5,
        Error::NotYetClaimable => 6,
        Error::AlreadyClaimed => 7,
        Error::InvalidAmount => 8,
        Error::NothingToDistribute => 9,
    }
}

impl Error {
    /// The numeric code of this error, as the contract reports it.
    pub fn code(self) -> (r: u32)
        ensures
            r == error_code(self),
    {
        match self {
            Error::AlreadyInitialized => 1,
            Error::NotInitialized => 2,
            Error::IntervalTooShort => 3,
            Error::InvalidShares => 4,
            Error::NoBeneficiaries => 5,
            Error::NotYetClaimable => 6,
            Error::AlreadyClaimed => 7,
            Error::InvalidAmount => 8,
            Error::NothingToDistribute => 9,
        }
    }
}

} // verus!
