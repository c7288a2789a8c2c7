//! Accounting core of a time-based staking reward ledger.
//!
//! Participants lock assets under configurable lock policies and accrue
//! rewards from a farm-owned pool that must never promise more than it
//! holds. This crate holds the verified bookkeeping: the reward pool's
//! reserved/available counters, per-farmer rate aggregation and lazy
//! accrual, the stake-receipt lifecycle (stake, run, cool down, restake),
//! and the reversible buff/debuff rate multiplier. Asset custody, identity
//! proofs, account storage and the on-chain dispatch layer are external
//! collaborators; the thin glue that talks to them lives outside this
//! library.

pub mod error;
pub mod farm;
pub mod farmer;
pub mod key;
pub mod laws;
pub mod lock;
pub mod ops;
pub mod pda;
pub mod stake_receipt;
pub mod utils;
pub mod whitelist_proof;
