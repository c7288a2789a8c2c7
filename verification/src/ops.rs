//! The operation layer: one function per external entry point that
//! mutates ledger state.
//!
//! Each operation is a single read-compute-write unit over the records it
//! names, and is all-or-nothing: on any failure every record is left
//! exactly as it was, so the storage layer's atomic commit sees either
//! the whole effect or none of it. Each operation first advances the
//! farmer's time-dependent accrual, so a rate change never applies
//! retroactively to time already elapsed. Asset custody transfers happen
//! outside the ledger, ordered so that a transfer failure leaves these
//! records unchanged.

use vstd::prelude::*;
use vstd::arithmetic::power::{lemma_pow1, lemma_pow_adds};

use crate::error::StakingError;
use crate::farm::Reward;
use crate::farmer::Farmer;
use crate::key::Key;
use crate::lock::{Lock, LockConfig};
use crate::stake_receipt::StakeReceipt;
use crate::utils::{
    calculate_reward_rate,
    level_emission,
    spec_bonus_rate,
    spec_level_units,
    spec_tokens_per_second,
};

verus! {

/// The per-unit emission a stake level adds to the whitelisted base rate,
/// at the reward asset's two decimal places.
pub open spec fn spec_emission(level: u8) -> int {
    spec_tokens_per_second(spec_level_units(level), 2)
}

/// The effective earn rate of a stake: `amount` units, each earning the
/// whitelisted base rate plus the level emission, raised by the lock's
/// percentage bonus.
pub open spec fn spec_stake_rate(
    base_rate_per_unit: u64,
    level: u8,
    amount: u64,
    bonus_factor: u8,
) -> int {
    spec_bonus_rate(amount * (base_rate_per_unit + spec_emission(level)), bonus_factor as int)
}

/// Stake `amount` units of an asset under `lock`, at the whitelisted
/// `base_rate_per_unit` and stake `level`: settle the farmer's accrual,
/// start (or restart, once the cooldown is over) the receipt at the
/// effective rate, and raise the farmer's total rate by it. The effective
/// rate is `applyBonus(amount * (base_rate_per_unit + emission(level)),
/// bonus)`. On any failure all three records are unchanged.
pub fn stake(
    pool: &mut Reward,
    farmer: &mut Farmer,
    receipt: &mut StakeReceipt,
    lock: &Lock,
    lock_key: Key,
    farmer_key: Key,
    mint_key: Key,
    base_rate_per_unit: u64,
    level: u8,
    amount: u64,
    now: u64,
) -> (r: Result<(), StakingError>)
    requires
        old(receipt).wf(),
    ensures
        final(receipt).wf(),
        ({
            let emission = spec_emission(level);
            let per_unit = base_rate_per_unit + emission;
            let base_total = amount * per_unit;
            let rate = spec_stake_rate(base_rate_per_unit, level, amount, lock.bonus_factor);
            &&& r is Ok <==> {
                &&& level <= 4
                &&& per_unit <= u64::MAX
                &&& base_total <= u64::MAX
                &&& (lock.bonus_factor > 0 ==> (lock.bonus_factor + 100) * base_total <= u64::MAX)
                &&& old(farmer).update_succeeds(*old(pool), now)
                &&& (old(receipt).farmer.is_unset() || (old(receipt).end_ts matches Some(end)
                    && end + lock.cooldown <= u64::MAX && now >= end + lock.cooldown))
                &&& old(farmer).total_reward_rate + rate <= u64::MAX
            }
            &&& r is Ok ==> {
                &&& *final(pool) == old(farmer).pool_after_update(*old(pool), now)
                &&& *final(farmer) == (Farmer {
                    total_reward_rate: (old(farmer).total_reward_rate + rate) as u64,
                    ..old(farmer).updated(now)
                })
                &&& *final(receipt) == (StakeReceipt {
                    farmer: if old(receipt).farmer.is_unset() {
                        farmer_key
                    } else {
                        old(receipt).farmer
                    },
                    mint: if old(receipt).farmer.is_unset() {
                        mint_key
                    } else {
                        old(receipt).mint
                    },
                    buff: if old(receipt).farmer.is_unset() {
                        None
                    } else {
                        old(receipt).buff
                    },
                    lock: lock_key,
                    start_ts: now,
                    end_ts: None,
                    amount: amount,
                    reward_rate: rate as u64,
                })
            }
            &&& r is Err ==> *final(pool) == *old(pool) && *final(farmer) == *old(farmer)
                && *final(receipt) == *old(receipt)
            &&& r is Err ==> r == Err::<(), StakingError>(
                if level > 4 {
                    StakingError::InvalidTripEffect
                } else if per_unit > u64::MAX || base_total > u64::MAX || (lock.bonus_factor > 0
                && (lock.bonus_factor + 100) * base_total > u64::MAX) {
                    StakingError::ArithmeticError
                } else if !old(farmer).update_succeeds(*old(pool), now) {
                    old(farmer).update_error(*old(pool), now)
                } else if !old(receipt).farmer.is_unset() && old(receipt).end_ts is None {
                    StakingError::GemStillStaked
                } else if !old(receipt).farmer.is_unset() && old(receipt).end_ts->0 + lock.cooldown
                    > u64::MAX {
                    StakingError::ArithmeticError
                } else if !old(receipt).farmer.is_unset() && now < old(receipt).end_ts->0
                    + lock.cooldown {
                    StakingError::CooldownIsNotOver
                } else {
                    StakingError::ArithmeticError
                },
            )
        }),
{
    proof {
        lemma_pow_adds(10, 1, 1);
        lemma_pow1(10);
    }
    let emission = match level_emission(level, 2) {
        Ok(e) => e,
        Err(e) => {
            return Err(e);
        },
    };
    let per_unit = match base_rate_per_unit.checked_add(emission) {
        Some(p) => p,
        None => {
            return Err(StakingError::ArithmeticError);
        },
    };
    let base_total = match amount.checked_mul(per_unit) {
        Some(b) => b,
        None => {
            return Err(StakingError::ArithmeticError);
        },
    };
    let rate = match calculate_reward_rate(base_total, lock.bonus_factor as u64) {
        Ok(rate) => rate,
        Err(e) => {
            return Err(e);
        },
    };
    let mut new_farmer = *farmer;
    let mut new_pool = *pool;
    match new_farmer.update_accrued_rewards(&mut new_pool, now) {
        Ok(()) => {},
        Err(e) => {
            return Err(e);
        },
    }
    let mut new_receipt = *receipt;
    match new_receipt.stake(amount, lock_key, farmer_key, mint_key, lock.cooldown, rate, now) {
        Ok(()) => {},
        Err(e) => {
            return Err(e);
        },
    }
    match new_farmer.increase_reward_rate(rate) {
        Ok(()) => {},
        Err(e) => {
            return Err(e);
        },
    }
    *pool = new_pool;
    *farmer = new_farmer;
    *receipt = new_receipt;
    Ok(())
}

/// Unstake a running receipt whose lock duration has elapsed: settle the
/// farmer's accrual, remove the receipt's rate from the farmer's total,
/// and put the receipt into cooldown as of `now`. Returns the staked
/// amount the custody collaborator must hand back. On any failure all
/// three records are unchanged.
pub fn unstake(
    pool: &mut Reward,
    farmer: &mut Farmer,
    receipt: &mut StakeReceipt,
    lock: &Lock,
    now: u64,
) -> (r: Result<u64, StakingError>)
    requires
        old(receipt).wf(),
    ensures
        final(receipt).wf(),
        r is Ok <==> {
            &&& old(receipt).spec_running()
            &&& old(receipt).start_ts + lock.duration <= u64::MAX
            &&& now >= old(receipt).start_ts + lock.duration
            &&& old(farmer).update_succeeds(*old(pool), now)
            &&& old(receipt).reward_rate <= old(farmer).total_reward_rate
        },
        r is Ok ==> {
            &&& r == Ok::<u64, StakingError>(old(receipt).amount)
            &&& *final(pool) == old(farmer).pool_after_update(*old(pool), now)
            &&& *final(farmer) == (Farmer {
                total_reward_rate: (old(farmer).total_reward_rate - old(
                    receipt,
                ).reward_rate) as u64,
                ..old(farmer).updated(now)
            })
            &&& *final(receipt) == (StakeReceipt { end_ts: Some(now), ..*old(receipt) })
        },
        r is Err ==> *final(pool) == *old(pool) && *final(farmer) == *old(farmer)
            && *final(receipt) == *old(receipt),
        r is Err ==> r == Err::<u64, StakingError>(
            if !old(receipt).spec_running() {
                StakingError::GemNotStaked
            } else if old(receipt).start_ts + lock.duration > u64::MAX {
                StakingError::ArithmeticError
            } else if now < old(receipt).start_ts + lock.duration {
                StakingError::GemStillLocked
            } else if !old(farmer).update_succeeds(*old(pool), now) {
                old(farmer).update_error(*old(pool), now)
            } else {
                StakingError::ArithmeticError
            },
        ),
{
    if !receipt.is_running() {
        return Err(StakingError::GemNotStaked);
    }
    let end_of_lock = match receipt.start_ts.checked_add(lock.duration) {
        Some(t) => t,
        None => {
            return Err(StakingError::ArithmeticError);
        },
    };
    if now < end_of_lock {
        return Err(StakingError::GemStillLocked);
    }
    let mut new_farmer = *farmer;
    let mut new_pool = *pool;
    match new_farmer.update_accrued_rewards(&mut new_pool, now) {
        Ok(()) => {},
        Err(e) => {
            return Err(e);
        },
    }
    match new_farmer.decrease_reward_rate(receipt.reward_rate) {
        Ok(()) => {},
        Err(e) => {
            return Err(e);
        },
    }
    *pool = new_pool;
    *farmer = new_farmer;
    receipt.end_ts = Some(now);
    Ok(receipt.amount)
}

/// Buff a pair of receipts with one buff asset: an atomic two-receipt
/// transaction. Both receipts must independently accept the buff, or the
/// whole operation fails; their rate deltas are summed and applied once
/// to the farmer's total and the pool's reservation, so nothing is
/// double-reserved. On any failure all four records are unchanged.
pub fn buff_pair(
    pool: &mut Reward,
    farmer: &mut Farmer,
    receipt_a: &mut StakeReceipt,
    receipt_b: &mut StakeReceipt,
    buff_key: Key,
    factor: u64,
    now: u64,
) -> (r: Result<(), StakingError>)
    requires
        old(receipt_a).wf(),
        old(receipt_b).wf(),
    ensures
        final(receipt_a).wf(),
        final(receipt_b).wf(),
        ({
            let inc = old(receipt_a).buff_delta(factor) + old(receipt_b).buff_delta(factor);
            let settled = old(farmer).pool_after_update(*old(pool), now);
            &&& r is Ok <==> {
                &&& old(receipt_a).buffable(factor)
                &&& old(receipt_b).buffable(factor)
                &&& inc <= u64::MAX
                &&& old(farmer).update_succeeds(*old(pool), now)
                &&& settled.available >= settled.reserved + inc
                &&& old(farmer).total_reward_rate + inc <= u64::MAX
            }
            &&& r is Ok ==> {
                &&& *final(receipt_a) == old(receipt_a).buffed(buff_key, factor)
                &&& *final(receipt_b) == old(receipt_b).buffed(buff_key, factor)
                &&& *final(farmer) == (Farmer {
                    total_reward_rate: (old(farmer).total_reward_rate + inc) as u64,
                    ..old(farmer).updated(now)
                })
                &&& *final(pool) == settled.reserved_by(inc as u64)
            }
            &&& r is Err ==> *final(pool) == *old(pool) && *final(farmer) == *old(farmer)
                && *final(receipt_a) == *old(receipt_a) && *final(receipt_b) == *old(receipt_b)
            &&& r is Err ==> r == Err::<(), StakingError>(
                if !old(receipt_a).buffable(factor) {
                    old(receipt_a).buff_error(factor)
                } else if !old(receipt_b).buffable(factor) {
                    old(receipt_b).buff_error(factor)
                } else if inc > u64::MAX {
                    StakingError::ArithmeticError
                } else if !old(farmer).update_succeeds(*old(pool), now) {
                    old(farmer).update_error(*old(pool), now)
                } else if settled.available < settled.reserved + inc {
                    if settled.reserved + inc > u64::MAX {
                        StakingError::ArithmeticError
                    } else {
                        StakingError::CouldNotReserveReward
                    }
                } else {
                    StakingError::ArithmeticError
                },
            )
        }),
{
    let mut new_a = *receipt_a;
    let delta_a = match new_a.try_buff(buff_key, factor) {
        Ok(d) => d,
        Err(e) => {
            return Err(e);
        },
    };
    let mut new_b = *receipt_b;
    let delta_b = match new_b.try_buff(buff_key, factor) {
        Ok(d) => d,
        Err(e) => {
            return Err(e);
        },
    };
    let increment = match delta_a.checked_add(delta_b) {
        Some(i) => i,
        None => {
            return Err(StakingError::ArithmeticError);
        },
    };
    let mut new_farmer = *farmer;
    let mut new_pool = *pool;
    match new_farmer.update_accrued_rewards(&mut new_pool, now) {
        Ok(()) => {},
        Err(e) => {
            return Err(e);
        },
    }
    match new_pool.try_reserve(increment) {
        Ok(()) => {},
        Err(e) => {
            return Err(e);
        },
    }
    match new_farmer.increase_reward_rate(increment) {
        Ok(()) => {},
        Err(e) => {
            return Err(e);
        },
    }
    *pool = new_pool;
    *farmer = new_farmer;
    *receipt_a = new_a;
    *receipt_b = new_b;
    Ok(())
}

/// Remove the buff from a pair of receipts: the exact inverse of the
/// pair buff. Both receipts must independently accept the debuff; their
/// rate deltas are summed and subtracted once from the farmer's total.
/// On any failure all four records are unchanged.
pub fn debuff_pair(
    pool: &mut Reward,
    farmer: &mut Farmer,
    receipt_a: &mut StakeReceipt,
    receipt_b: &mut StakeReceipt,
    now: u64,
) -> (r: Result<(), StakingError>)
    requires
        old(receipt_a).wf(),
        old(receipt_b).wf(),
    ensures
        final(receipt_a).wf(),
        final(receipt_b).wf(),
        ({
            let dec = old(receipt_a).debuff_delta() + old(receipt_b).debuff_delta();
            &&& r is Ok <==> {
                &&& old(receipt_a).debuffable()
                &&& old(receipt_b).debuffable()
                &&& dec <= u64::MAX
                &&& old(farmer).update_succeeds(*old(pool), now)
                &&& dec <= old(farmer).total_reward_rate
            }
            &&& r is Ok ==> {
                &&& *final(receipt_a) == old(receipt_a).debuffed()
                &&& *final(receipt_b) == old(receipt_b).debuffed()
                &&& *final(farmer) == (Farmer {
                    total_reward_rate: (old(farmer).total_reward_rate - dec) as u64,
                    ..old(farmer).updated(now)
                })
                &&& *final(pool) == old(farmer).pool_after_update(*old(pool), now)
            }
            &&& r is Err ==> *final(pool) == *old(pool) && *final(farmer) == *old(farmer)
                && *final(receipt_a) == *old(receipt_a) && *final(receipt_b) == *old(receipt_b)
            &&& r is Err ==> r == Err::<(), StakingError>(
                if !old(receipt_a).debuffable() {
                    old(receipt_a).debuff_error()
                } else if !old(receipt_b).debuffable() {
                    old(receipt_b).debuff_error()
                } else if dec > u64::MAX {
                    StakingError::ArithmeticError
                } else if !old(farmer).update_succeeds(*old(pool), now) {
                    old(farmer).update_error(*old(pool), now)
                } else {
                    StakingError::ArithmeticError
                },
            )
        }),
{
    let mut new_a = *receipt_a;
    let delta_a = match new_a.try_debuff() {
        Ok(d) => d,
        Err(e) => {
            return Err(e);
        },
    };
    let mut new_b = *receipt_b;
    let delta_b = match new_b.try_debuff() {
        Ok(d) => d,
        Err(e) => {
            return Err(e);
        },
    };
    let decrement = match delta_a.checked_add(delta_b) {
        Some(d) => d,
        None => {
            return Err(StakingError::ArithmeticError);
        },
    };
    let mut new_farmer = *farmer;
    let mut new_pool = *pool;
    match new_farmer.update_accrued_rewards(&mut new_pool, now) {
        Ok(()) => {},
        Err(e) => {
            return Err(e);
        },
    }
    match new_farmer.decrease_reward_rate(decrement) {
        Ok(()) => {},
        Err(e) => {
            return Err(e);
        },
    }
    *pool = new_pool;
    *farmer = new_farmer;
    *receipt_a = new_a;
    *receipt_b = new_b;
    Ok(())
}

/// Build the lock-policy records a farm manager asked for, one per
/// configuration, all scoped to `farm`. Allocating their storage is the
/// record store's job; this produces the records to write.
pub fn create_locks(farm: Key, configs: &Vec<LockConfig>) -> (r: Vec<Lock>)
    ensures
        r@.len() == configs@.len(),
        forall|i: int|
            0 <= i < configs@.len() ==> r@[i] == (Lock {
                farm,
                duration: configs@[i].duration,
                cooldown: configs@[i].cooldown,
                bonus_factor: configs@[i].bonus_factor,
            }),
{
    let mut locks: Vec<Lock> = Vec::new();
    let mut i: usize = 0;
    while i < configs.len()
        invariant
            0 <= i <= configs@.len(),
            locks@.len() == i,
            forall|j: int|
                0 <= j < i ==> locks@[j] == (Lock {
                    farm,
                    duration: configs@[j].duration,
                    cooldown: configs@[j].cooldown,
                    bonus_factor: configs@[j].bonus_factor,
                }),
        decreases configs@.len() - i,
    {
        let config = configs[i];
        locks.push(Lock::new(farm, config));
        i = i + 1;
    }
    locks
}

} // verus!
