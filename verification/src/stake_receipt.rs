//! Per-asset stake receipts and their lifecycle.
//!
//! One receipt exists per (farmer, asset) pair, reused across stake and
//! unstake cycles and never deleted. A receipt with no end timestamp is
//! running and earning; one with an end timestamp is cooling down since
//! that instant, and can only be staked again once the lock's cooldown has
//! passed. A running receipt may carry at most one buff: a multiplicative
//! rate adjustment that debuffing reverses exactly.

use vstd::prelude::*;

use crate::error::StakingError;
use crate::key::Key;

verus! {

/// An active rate multiplier: which buff asset is applied and by what
/// factor the rate was multiplied.
#[derive(Clone, Copy, Debug, PartialEq, Eq, Structural)]
pub struct Buff {
    pub key: Key,
    pub factor: u64,
}

/// The per-asset record of one stake: who staked what under which lock,
/// since when, how much, at what effective rate, and under which buff.
#[derive(Clone, Copy, Debug, PartialEq, Eq, Structural)]
pub struct StakeReceipt {
    pub farmer: Key,
    pub mint: Key,
    pub lock: Key,
    pub start_ts: u64,
    pub end_ts: Option<u64>,
    pub amount: u64,
    pub reward_rate: u64,
    pub buff: Option<Buff>,
}

impl StakeReceipt {
    /// A receipt without an end timestamp is running and earning.
    pub open spec fn spec_running(self) -> bool {
        self.end_ts is None
    }

    /// Well-formedness: a stored buff always has a positive factor, so a
    /// debuff can divide the rate back exactly. Every constructor and
    /// method of this module preserves it.
    pub open spec fn wf(self) -> bool {
        self.buff matches Some(b) ==> b.factor > 0
    }

    /// Whether a buff by `factor` is legal: the receipt must be running
    /// and unbuffed, the factor positive, and the raised rate must fit.
    pub open spec fn buffable(self, factor: u64) -> bool {
        &&& self.spec_running()
        &&& factor > 0
        &&& self.buff is None
        &&& self.reward_rate * factor <= u64::MAX
    }

    /// How much a buff by `factor` raises the receipt's rate.
    pub open spec fn buff_delta(self, factor: u64) -> int {
        self.reward_rate * factor - self.reward_rate
    }

    /// The error an illegal buff reports, in the order the conditions are
    /// checked.
    pub open spec fn buff_error(self, factor: u64) -> StakingError {
        if !self.spec_running() {
            StakingError::GemNotStaked
        } else if factor == 0 {
            StakingError::FactorMustBeGtZero
        } else if self.buff is Some {
            StakingError::GemAlreadyBuffed
        } else {
            StakingError::ArithmeticError
        }
    }

    /// Whether a debuff is legal: the receipt must be running and carry a
    /// buff.
    pub open spec fn debuffable(self) -> bool {
        self.spec_running() && self.buff is Some
    }

    /// How much a debuff lowers the receipt's rate.
    pub open spec fn debuff_delta(self) -> int {
        self.reward_rate - self.reward_rate / self.buff->0.factor
    }

    /// The error an illegal debuff reports.
    pub open spec fn debuff_error(self) -> StakingError {
        if !self.spec_running() {
            StakingError::GemNotStaked
        } else {
            StakingError::GemNotBuffed
        }
    }

    /// The receipt after a successful buff by `factor` with `buff_key`.
    pub open spec fn buffed(self, buff_key: Key, factor: u64) -> StakeReceipt {
        StakeReceipt {
            reward_rate: (self.reward_rate * factor) as u64,
            buff: Some(Buff { key: buff_key, factor }),
            ..self
        }
    }

    /// The receipt after a successful debuff: the rate divided back by the
    /// stored factor, and the buff cleared.
    pub open spec fn debuffed(self) -> StakeReceipt {
        StakeReceipt {
            reward_rate: (self.reward_rate / self.buff->0.factor) as u64,
            buff: None,
            ..self
        }
    }

    /// A zero-valued receipt, as the record store creates it before the
    /// first stake of a (farmer, asset) pair.
    pub fn unused() -> (r: StakeReceipt)
        ensures
            r.farmer.is_unset(),
            r.mint.is_unset(),
            r.lock.is_unset(),
            r.start_ts == 0,
            r.end_ts is None,
            r.amount == 0,
            r.reward_rate == 0,
            r.buff is None,
            r.wf(),
    {
        StakeReceipt {
            farmer: Key::unset(),
            mint: Key::unset(),
            lock: Key::unset(),
            start_ts: 0,
            end_ts: None,
            amount: 0,
            reward_rate: 0,
            buff: None,
        }
    }

    /// Whether the receipt is running.
    pub fn is_running(&self) -> (r: bool)
        ensures
            r == self.spec_running(),
    {
        match self.end_ts {
            None => true,
            Some(_) => false,
        }
    }

    /// Apply a buff: multiply the effective rate by `factor` and record the
    /// buff asset. Only legal on a running, unbuffed receipt with a
    /// positive factor. Returns the rate delta the caller must add to the
    /// farmer's aggregate and the pool's reservation. On failure the
    /// receipt is unchanged.
    pub fn try_buff(&mut self, buff_key: Key, factor: u64) -> (r: Result<u64, StakingError>)
        requires
            old(self).wf(),
        ensures
            final(self).wf(),
            r is Ok <==> old(self).buffable(factor),
            r is Ok ==> {
                &&& 0 <= old(self).buff_delta(factor) <= u64::MAX
                &&& *final(self) == old(self).buffed(buff_key, factor)
                &&& r == Ok::<u64, StakingError>(old(self).buff_delta(factor) as u64)
            },
            r is Err ==> *final(self) == *old(self),
            r is Err ==> r == Err::<u64, StakingError>(old(self).buff_error(factor)),
    {
        if !self.is_running() {
            return Err(StakingError::GemNotStaked);
        }
        if factor == 0 {
            return Err(StakingError::FactorMustBeGtZero);
        }
        match self.buff {
            Some(_) => Err(StakingError::GemAlreadyBuffed),
            None => {
                let previous = self.reward_rate;
                let buffed = match previous.checked_mul(factor) {
                    Some(b) => b,
                    None => {
                        return Err(StakingError::ArithmeticError);
                    },
                };
                self.buff = Some(Buff { key: buff_key, factor });
                self.reward_rate = buffed;
                proof {
                    assert(buffed - previous >= 0) by (nonlinear_arith)
                        requires
                            factor >= 1,
                            buffed == previous * factor,
                            previous >= 0,
                    ;
                }
                Ok(buffed - previous)
            },
        }
    }

    /// Remove the active buff: divide the rate back by the stored factor,
    /// the exact inverse of the multiplication the buff applied. Only legal
    /// on a running, buffed receipt. Returns the rate delta the caller must
    /// subtract from the farmer's aggregate. On failure the receipt is
    /// unchanged.
    pub fn try_debuff(&mut self) -> (r: Result<u64, StakingError>)
        requires
            old(self).wf(),
        ensures
            final(self).wf(),
            r is Ok <==> old(self).debuffable(),
            r is Ok ==> {
                &&& 0 <= old(self).debuff_delta() <= u64::MAX
                &&& *final(self) == old(self).debuffed()
                &&& r == Ok::<u64, StakingError>(old(self).debuff_delta() as u64)
            },
            r is Err ==> *final(self) == *old(self),
            r is Err ==> r == Err::<u64, StakingError>(old(self).debuff_error()),
    {
        if !self.is_running() {
            return Err(StakingError::GemNotStaked);
        }
        match self.buff {
            Some(b) => {
                let previous = self.reward_rate;
                let debuffed = previous / b.factor;
                self.reward_rate = debuffed;
                self.buff = None;
                proof {
                    assert(debuffed <= previous) by (nonlinear_arith)
                        requires
                            b.factor >= 1,
                            debuffed == previous as int / b.factor as int,
                            previous >= 0,
                    ;
                }
                Ok(previous - debuffed)
            },
            None => Err(StakingError::GemNotBuffed),
        }
    }

    /// Stake `amount` of the receipt's asset at the effective `reward_rate`
    /// under the lock named by `lock_key`, when the clock reads `now`. A
    /// never-used receipt is initialised outright; a cooling-down receipt
    /// is reusable once `cooldown` seconds have passed since it ended —
    /// restaking at exactly the cooldown boundary succeeds; a running
    /// receipt must be unstaked first. On failure the receipt is unchanged.
    pub fn stake(
        &mut self,
        amount: u64,
        lock_key: Key,
        farmer_key: Key,
        mint_key: Key,
        cooldown: u64,
        reward_rate: u64,
        now: u64,
    ) -> (r: Result<(), StakingError>)
        requires
            old(self).wf(),
        ensures
            final(self).wf(),
            r is Ok <==> {
                ||| old(self).farmer.is_unset()
                ||| {
                    &&& !old(self).farmer.is_unset()
                    &&& old(self).end_ts matches Some(end) && end + cooldown <= u64::MAX && now
                        >= end + cooldown
                }
            },
            old(self).farmer.is_unset() ==> *final(self) == (StakeReceipt {
                farmer: farmer_key,
                mint: mint_key,
                lock: lock_key,
                start_ts: now,
                end_ts: None,
                amount,
                reward_rate,
                buff: None,
            }),
            r is Ok && !old(self).farmer.is_unset() ==> *final(self) == (StakeReceipt {
                start_ts: now,
                end_ts: None,
                lock: lock_key,
                amount,
                reward_rate,
                ..*old(self)
            }),
            r is Err ==> *final(self) == *old(self),
            r is Err ==> r == Err::<(), StakingError>(
                if old(self).end_ts is None {
                    StakingError::GemStillStaked
                } else if old(self).end_ts->0 + cooldown > u64::MAX {
                    StakingError::ArithmeticError
                } else {
                    StakingError::CooldownIsNotOver
                },
            ),
    {
        if self.farmer.is_zero() {
            *self = StakeReceipt {
                farmer: farmer_key,
                mint: mint_key,
                lock: lock_key,
                start_ts: now,
                end_ts: None,
                amount,
                reward_rate,
                buff: None,
            };
            return Ok(());
        }
        match self.end_ts {
            None => Err(StakingError::GemStillStaked),
            Some(end) => {
                let ready = match end.checked_add(cooldown) {
                    Some(t) => t,
                    None => {
                        return Err(StakingError::ArithmeticError);
                    },
                };
                if now < ready {
                    return Err(StakingError::CooldownIsNotOver);
                }
                self.end_ts = None;
                self.start_ts = now;
                self.lock = lock_key;
                self.reward_rate = reward_rate;
                self.amount = amount;
                Ok(())
            },
        }
    }
}

/// Buff reversibility: a rate multiplied by a positive factor and divided
/// back by the same factor returns to exactly the original rate — for
/// integer rates the buff product is always exactly divisible by its
/// factor, so `debuffed` after `buffed` restores the receipt's rate and
/// the two rate deltas cancel.
pub proof fn lemma_buff_reversible(receipt: StakeReceipt, buff_key: Key, factor: u64)
    requires
        factor > 0,
        receipt.buff is None,
        receipt.reward_rate * factor <= u64::MAX,
    ensures
        receipt.buffed(buff_key, factor).debuffed().reward_rate == receipt.reward_rate,
        receipt.buffed(buff_key, factor).debuffed() == receipt,
        ({
            let up = receipt.buffed(buff_key, factor).reward_rate - receipt.reward_rate;
            let down = receipt.buffed(buff_key, factor).reward_rate - receipt.buffed(
                buff_key,
                factor,
            ).debuffed().reward_rate;
            up == down
        }),
{
    let rate = receipt.reward_rate;
    assert((rate * factor) / (factor as int) == rate) by (nonlinear_arith)
        requires
            factor > 0,
    ;
    assert(receipt.buffed(buff_key, factor).debuffed() =~= receipt);
}

} // verus!
