# inherit_vault

The rules of a non-custodial inheritance vault ("dead-man's switch") for Soroban,
verified with Verus.

- `src/types.rs`: constants, `Beneficiary`, `VaultStatus`, `Error`, `Payout`.
- `src/shares.rs`: beneficiary-list validation (non-empty, shares sum to 10_000 bps).
- `src/distribution.rs`: the split of a balance by share, with the rounding remainder
  going to the last beneficiary, and the lemmas that the split pays out exactly the
  balance, only to listed beneficiaries.
- `src/vault.rs`: the vault's model (`VaultView`, spec functions for every operation)
  and the verified operations on `InheritVault`.
- `src/laws.rs`: properties that span operations (claim only after the deadline and
  at most once, a sign of life stops a payout, the views agree).
- `app/lib.rs`: the Soroban contract. It loads the vault from instance storage, reads
  the ledger clock, performs authorisation and token transfers, and stores the result.
- `tests/`: the contract's scenarios, run against the library with a simulated token
  ledger, and tests of each rule.

## Choices

- Deposits do not restart the owner's countdown. The project's README and
  whitepaper list deposits among the actions that reset the timer, but the
  contract's own documentation of `deposit` and its code say that only owner
  actions (check-in, withdrawal, change of heirs, change of schedule) do; the
  library follows the contract.
- A vault that was never initialized is not claimable and reads as `Active`: it
  holds nothing that could be claimed, and `claim` refuses it with
  `NotInitialized`. Its deadline, time left and last check-in read as 0.
- The heirs list is a std `Vec` in the library. Every access to Soroban's own
  vector is a call into the ledger host, so the contract converts between the two
  when it loads and stores the vault; the contract shell is therefore built with
  std, as the library is.
- `InheritVault::claim` requires the vault's invariant (`wf`); every vault that the
  operations build from `new` satisfies it, and the contract checks it with
  `is_well_formed` before a claim.
