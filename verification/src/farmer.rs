//! Per-participant aggregate accounts and the lazy accrual engine.
//!
//! A farmer account carries the participant's total earn rate (the sum of
//! the rates of all of their running receipts) and a lazily accrued reward
//! balance. Nothing runs in the background: whichever operation next
//! touches the account pays for the elapsed time, reserving the accrued
//! increment from the farm's pool before crediting it. Every mutating
//! method is all-or-nothing: on failure the farmer and the pool are left
//! exactly as they were.

use vstd::prelude::*;

use crate::error::StakingError;
use crate::farm::Reward;
use crate::key::Key;

verus! {

/// A participant's per-farm aggregate: identity, accrued-but-unclaimed
/// reward, total earn rate over running receipts, and the instant up to
/// which accrual has been paid.
#[derive(Clone, Copy, Debug, PartialEq, Eq, Structural)]
pub struct Farmer {
    pub farm: Key,
    pub owner: Key,
    pub accrued_rewards: u64,
    pub total_reward_rate: u64,
    pub last_update: u64,
    pub bump: u8,
}

/// Seconds from `last` to `now`, and zero if the clock reads earlier than
/// the last update.
pub open spec fn spec_elapsed(last: u64, now: u64) -> int {
    if now >= last {
        now - last
    } else {
        0
    }
}

/// The reward earned by `f` since its last update when the clock reads
/// `now`: rate times elapsed seconds, as an unbounded integer.
pub open spec fn accrual_increment(f: Farmer, now: u64) -> int {
    f.total_reward_rate * spec_elapsed(f.last_update, now)
}

impl Farmer {
    /// Whether settling accrual at `now` against `pool` succeeds: the
    /// increment and the grown balance must fit, and the pool must cover
    /// the increment.
    pub open spec fn update_succeeds(self, pool: Reward, now: u64) -> bool {
        let inc = accrual_increment(self, now);
        &&& inc <= u64::MAX
        &&& self.accrued_rewards + inc <= u64::MAX
        &&& (inc > 0 ==> pool.available >= pool.reserved + inc)
    }

    /// The account after a successful settlement at `now`.
    pub open spec fn updated(self, now: u64) -> Farmer {
        Farmer {
            accrued_rewards: (self.accrued_rewards + accrual_increment(self, now)) as u64,
            last_update: now,
            ..self
        }
    }

    /// The pool after this account's successful settlement at `now`.
    pub open spec fn pool_after_update(self, pool: Reward, now: u64) -> Reward {
        let inc = accrual_increment(self, now);
        if inc > 0 {
            pool.reserved_by(inc as u64)
        } else {
            pool
        }
    }

    /// The error a failed settlement reports: overflow anywhere is an
    /// arithmetic fault; otherwise the pool could not cover the increment.
    pub open spec fn update_error(self, pool: Reward, now: u64) -> StakingError {
        let inc = accrual_increment(self, now);
        if inc > u64::MAX || self.accrued_rewards + inc > u64::MAX || pool.reserved + inc
            > u64::MAX {
            StakingError::ArithmeticError
        } else {
            StakingError::CouldNotReserveReward
        }
    }

    /// A fresh account for `owner` on `farm`: nothing accrued, no rate,
    /// accrual paid up to `now`.
    pub fn new(farm: Key, owner: Key, bump: u8, now: u64) -> (r: Farmer)
        ensures
            r.farm == farm,
            r.owner == owner,
            r.bump == bump,
            r.accrued_rewards == 0,
            r.total_reward_rate == 0,
            r.last_update == now,
    {
        Farmer { farm, owner, accrued_rewards: 0, total_reward_rate: 0, last_update: now, bump }
    }

    /// Pay for the time elapsed since the last update: reserve the accrued
    /// increment from the pool and credit it to the account. Idempotent per
    /// instant: a second call at the same `now` changes nothing. On any
    /// failure neither the account nor the pool moves.
    pub fn update_accrued_rewards(&mut self, pool: &mut Reward, now: u64) -> (r: Result<
        (),
        StakingError,
    >)
        ensures
            r is Ok <==> old(self).update_succeeds(*old(pool), now),
            r is Ok ==> *final(self) == old(self).updated(now) && *final(pool) == old(
                self,
            ).pool_after_update(*old(pool), now),
            r is Err ==> *final(self) == *old(self) && *final(pool) == *old(pool),
            r is Err ==> r == Err::<(), StakingError>(old(self).update_error(*old(pool), now)),
    {
        let elapsed: u64 = if now >= self.last_update {
            now - self.last_update
        } else {
            0
        };
        let increment = match self.total_reward_rate.checked_mul(elapsed) {
            Some(i) => i,
            None => {
                return Err(StakingError::ArithmeticError);
            },
        };
        if increment > 0 {
            let new_accrued = match self.accrued_rewards.checked_add(increment) {
                Some(a) => a,
                None => {
                    return Err(StakingError::ArithmeticError);
                },
            };
            match pool.try_reserve(increment) {
                Ok(()) => {},
                Err(e) => {
                    return Err(e);
                },
            }
            self.accrued_rewards = new_accrued;
        }
        self.last_update = now;
        Ok(())
    }

    /// Settle accrual up to `now`, then withdraw the whole accrued balance:
    /// the pool releases it and the account drops to zero. The returned
    /// amount is what the caller owes the farmer. The pool's reserved
    /// balance shrinks by exactly the claimed amount relative to the
    /// settled state; on any failure nothing moves.
    pub fn claim_accrued(&mut self, pool: &mut Reward, now: u64) -> (r: Result<u64, StakingError>)
        ensures
            ({
                let inc = accrual_increment(*old(self), now);
                let total = old(self).accrued_rewards + inc;
                &&& r is Ok <==> {
                    &&& inc <= u64::MAX
                    &&& total <= u64::MAX
                    &&& (inc > 0 ==> old(pool).available >= old(pool).reserved + inc)
                    &&& total <= old(pool).reserved + inc
                }
                &&& r is Ok ==> {
                    &&& r == Ok::<u64, StakingError>(total as u64)
                    &&& final(self).accrued_rewards == 0
                    &&& final(self).last_update == now
                    &&& final(self).total_reward_rate == old(self).total_reward_rate
                    &&& final(self).farm == old(self).farm
                    &&& final(self).owner == old(self).owner
                    &&& final(self).bump == old(self).bump
                    &&& final(pool).reserved == old(pool).reserved + inc - total
                    &&& final(pool).available == old(pool).available - inc
                    &&& final(pool).mint == old(pool).mint
                }
                &&& r is Err ==> *final(self) == *old(self) && *final(pool) == *old(pool)
                &&& r is Err ==> r == Err::<u64, StakingError>(
                    if inc > u64::MAX || total > u64::MAX || old(pool).reserved + inc > u64::MAX {
                        StakingError::ArithmeticError
                    } else if inc > 0 && old(pool).available < old(pool).reserved + inc {
                        StakingError::CouldNotReserveReward
                    } else {
                        StakingError::CouldNotReleaseReward
                    },
                )
            }),
    {
        let mut account = *self;
        let mut settled = *pool;
        match account.update_accrued_rewards(&mut settled, now) {
            Ok(()) => {},
            Err(e) => {
                return Err(e);
            },
        }
        let reward = account.accrued_rewards;
        match settled.try_release(reward) {
            Ok(()) => {},
            Err(e) => {
                return Err(e);
            },
        }
        account.accrued_rewards = 0;
        *self = account;
        *pool = settled;
        Ok(reward)
    }

    /// Raise the total earn rate by a receipt's rate delta.
    pub fn increase_reward_rate(&mut self, increment: u64) -> (r: Result<(), StakingError>)
        ensures
            r is Ok <==> old(self).total_reward_rate + increment <= u64::MAX,
            r is Ok ==> *final(self) == (Farmer {
                total_reward_rate: (old(self).total_reward_rate + increment) as u64,
                ..*old(self)
            }),
            r is Err ==> *final(self) == *old(self) && r == Err::<(), StakingError>(
                StakingError::ArithmeticError,
            ),
    {
        match self.total_reward_rate.checked_add(increment) {
            Some(rate) => {
                self.total_reward_rate = rate;
                Ok(())
            },
            None => Err(StakingError::ArithmeticError),
        }
    }

    /// Lower the total earn rate by a receipt's rate delta. Underflow means
    /// a rate was subtracted twice: a bookkeeping bug, always fatal.
    pub fn decrease_reward_rate(&mut self, decrement: u64) -> (r: Result<(), StakingError>)
        ensures
            r is Ok <==> decrement <= old(self).total_reward_rate,
            r is Ok ==> *final(self) == (Farmer {
                total_reward_rate: (old(self).total_reward_rate - decrement) as u64,
                ..*old(self)
            }),
            r is Err ==> *final(self) == *old(self) && r == Err::<(), StakingError>(
                StakingError::ArithmeticError,
            ),
    {
        match self.total_reward_rate.checked_sub(decrement) {
            Some(rate) => {
                self.total_reward_rate = rate;
                Ok(())
            },
            None => Err(StakingError::ArithmeticError),
        }
    }
}

} // verus!
