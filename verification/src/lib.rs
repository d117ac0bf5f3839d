//! InheritVault: the rules of a non-custodial inheritance vault ("dead-man's switch").
//!
//! The vault holds one owner's tokens and measures one thing: the time since the
//! owner's last check-in. While the owner keeps checking in they keep full control;
//! once they stay silent past `interval + grace`, anyone may trigger `claim`, which
//! splits the whole balance among the configured beneficiaries by their shares.
//!
//! This crate is the verified core. Reading and writing ledger storage, reading the
//! ledger clock, authorisation and token transfers are done by the contract shell
//! around it, which hands the library plain values and carries out what it decides.

pub mod types;
pub mod shares;
pub mod distribution;
pub mod vault;
pub mod laws;
pub mod operation_laws;
