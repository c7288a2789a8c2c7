//! Error taxonomy of the ledger.
//!
//! Precondition violations and resource-exhaustion failures are caller- or
//! funding-recoverable; `ArithmeticError` always signals a bookkeeping bug
//! and aborts the whole operation.

use vstd::prelude::*;

verus! {

#[derive(Clone, Copy, Debug, PartialEq, Eq, Structural)]
pub enum StakingError {
    /// Restake attempted before the lock's cooldown elapsed.
    CooldownIsNotOver,
    /// The pool's spendable balance cannot cover a new reservation.
    CouldNotReserveReward,
    /// A release would exceed the reserved balance.
    CouldNotReleaseReward,
    /// Unstake attempted before the lock's duration elapsed.
    GemStillLocked,
    /// Stake attempted on a receipt that is already running.
    GemStillStaked,
    /// Operation requires a running receipt.
    GemNotStaked,
    /// Buff attempted on a receipt that already carries one.
    GemAlreadyBuffed,
    /// Debuff attempted on a receipt without a buff.
    GemNotBuffed,
    /// Operation requires the receipt to be debuffed first.
    GemStillBuffed,
    /// A whitelist entry of the wrong kind was presented.
    InvalidWhitelistType,
    /// The presented whitelist entry does not match the derived address.
    InvalidWhitelist,
    /// A buff factor of zero would not be reversible.
    FactorMustBeGtZero,
    /// An externally supplied record did not hold the expected data.
    InvalidAccountData,
    /// A stake level outside the emission table.
    InvalidTripEffect,
    /// Checked arithmetic overflowed or underflowed: a bookkeeping bug.
    ArithmeticError,
}

} // verus!
