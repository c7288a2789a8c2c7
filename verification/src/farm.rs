//! The farm and its reward pool.
//!
//! A farm owns one reward pool: a pair of counters splitting the reward
//! balance into `reserved` (promised to farmers, not yet paid out) and
//! `available` (spendable headroom). Funding raises `available`; a
//! reservation moves an increment from `available` to `reserved`, and is
//! deliberately conservative: it only proceeds while `available` covers
//! the *whole* reservation level it would reach, so operators must keep
//! funding ahead of aggregate commitments. A release pays reserved reward
//! out on claim.

use vstd::prelude::*;

use crate::error::StakingError;
use crate::key::Key;

verus! {

/// The reward pool of one farm: which asset it pays, and how much of the
/// funded balance is promised (`reserved`) versus spendable (`available`).
#[derive(Clone, Copy, Debug, PartialEq, Eq, Structural)]
pub struct Reward {
    pub mint: Key,
    pub reserved: u64,
    pub available: u64,
}

/// The top-level record of one staking tenant: its operator and its pool.
#[derive(Clone, Copy, Debug, PartialEq, Eq, Structural)]
pub struct Farm {
    pub authority: Key,
    pub reward: Reward,
    pub bump: u8,
}

impl Reward {
    /// Whether funding `amount` succeeds: the sum must fit the counter.
    pub open spec fn fund_succeeds(self, amount: u64) -> bool {
        self.available + amount <= u64::MAX
    }

    /// Whether reserving `amount` succeeds: `available` must cover the
    /// whole reservation level the pool would reach.
    pub open spec fn reserve_succeeds(self, amount: u64) -> bool {
        self.available >= self.reserved + amount
    }

    /// Whether releasing `amount` succeeds: only reserved reward can leave.
    pub open spec fn release_succeeds(self, amount: u64) -> bool {
        amount <= self.reserved
    }

    /// The pool after a successful funding.
    pub open spec fn funded(self, amount: u64) -> Reward {
        Reward { available: (self.available + amount) as u64, ..self }
    }

    /// The pool after a successful reservation: only the increment moves
    /// out of `available`; previously reserved amounts are untouched.
    pub open spec fn reserved_by(self, amount: u64) -> Reward {
        Reward {
            reserved: (self.reserved + amount) as u64,
            available: (self.available - amount) as u64,
            ..self
        }
    }

    /// The pool after a successful release.
    pub open spec fn released(self, amount: u64) -> Reward {
        Reward { reserved: (self.reserved - amount) as u64, ..self }
    }

    /// A fresh pool for `mint`, with nothing funded and nothing promised.
    pub fn new(mint: Key) -> (r: Reward)
        ensures
            r.mint == mint,
            r.reserved == 0,
            r.available == 0,
    {
        Reward { mint, reserved: 0, available: 0 }
    }

    /// Add newly funded reward to the spendable balance.
    pub fn try_fund(&mut self, amount: u64) -> (r: Result<(), StakingError>)
        ensures
            r is Ok <==> old(self).fund_succeeds(amount),
            r is Ok ==> *final(self) == old(self).funded(amount),
            r is Err ==> *final(self) == *old(self) && r == Err::<(), StakingError>(
                StakingError::ArithmeticError,
            ),
    {
        match self.available.checked_add(amount) {
            Some(available) => {
                self.available = available;
                Ok(())
            },
            None => Err(StakingError::ArithmeticError),
        }
    }

    /// Promise `amount` of reward to a farmer, moving it out of the
    /// spendable balance. Fails with `CouldNotReserveReward` when the
    /// spendable balance does not cover the whole new reservation level.
    pub fn try_reserve(&mut self, amount: u64) -> (r: Result<(), StakingError>)
        ensures
            r is Ok <==> old(self).reserve_succeeds(amount),
            r is Ok ==> *final(self) == old(self).reserved_by(amount),
            r is Err ==> *final(self) == *old(self),
            r is Err ==> r == Err::<(), StakingError>(
                if old(self).reserved + amount > u64::MAX {
                    StakingError::ArithmeticError
                } else {
                    StakingError::CouldNotReserveReward
                },
            ),
    {
        match self.reserved.checked_add(amount) {
            Some(new_reserved) => {
                if self.available >= new_reserved {
                    self.available = self.available - amount;
                    self.reserved = new_reserved;
                    Ok(())
                } else {
                    Err(StakingError::CouldNotReserveReward)
                }
            },
            None => Err(StakingError::ArithmeticError),
        }
    }

    /// Pay promised reward out, shrinking the reserved balance. A failure
    /// here signals corrupted bookkeeping and is always fatal.
    pub fn try_release(&mut self, amount: u64) -> (r: Result<(), StakingError>)
        ensures
            r is Ok <==> old(self).release_succeeds(amount),
            r is Ok ==> *final(self) == old(self).released(amount),
            r is Err ==> *final(self) == *old(self) && r == Err::<(), StakingError>(
                StakingError::CouldNotReleaseReward,
            ),
    {
        match self.reserved.checked_sub(amount) {
            Some(reserved) => {
                self.reserved = reserved;
                Ok(())
            },
            None => Err(StakingError::CouldNotReleaseReward),
        }
    }
}

impl Farm {
    /// A fresh farm for `authority` paying rewards in `mint`: its pool
    /// starts with nothing funded and nothing promised.
    pub fn new(authority: Key, mint: Key, bump: u8) -> (r: Farm)
        ensures
            r.authority == authority,
            r.bump == bump,
            r.reward.mint == mint,
            r.reward.reserved == 0,
            r.reward.available == 0,
    {
        Farm { authority, reward: Reward::new(mint), bump }
    }
}

/// One call against a reward pool, for stating pool-history facts.
#[derive(Clone, Copy, Debug, PartialEq, Eq, Structural)]
pub enum PoolOp {
    Fund(u64),
    Reserve(u64),
    Release(u64),
}

/// The pool a call leaves behind: exactly the successful transitions of
/// `try_fund`, `try_reserve` and `try_release`; a failed call changes
/// nothing.
pub open spec fn pool_op_result(p: Reward, op: PoolOp) -> Reward {
    match op {
        PoolOp::Fund(a) => if p.fund_succeeds(a) {
            p.funded(a)
        } else {
            p
        },
        PoolOp::Reserve(a) => if p.reserve_succeeds(a) {
            p.reserved_by(a)
        } else {
            p
        },
        PoolOp::Release(a) => if p.release_succeeds(a) {
            p.released(a)
        } else {
            p
        },
    }
}

/// How much a call adds to the cumulative funded total: the amount of a
/// successful funding, else nothing.
pub open spec fn pool_op_funded(p: Reward, op: PoolOp) -> int {
    match op {
        PoolOp::Fund(a) => if p.fund_succeeds(a) {
            a as int
        } else {
            0
        },
        _ => 0,
    }
}

/// How much a call adds to the cumulative released total: the amount of a
/// successful release, else nothing.
pub open spec fn pool_op_released(p: Reward, op: PoolOp) -> int {
    match op {
        PoolOp::Release(a) => if p.release_succeeds(a) {
            a as int
        } else {
            0
        },
        _ => 0,
    }
}

/// The pool after a whole sequence of calls, starting from a fresh pool,
/// together with the cumulative funded and released totals.
pub open spec fn run_pool(mint: Key, ops: Seq<PoolOp>) -> (Reward, int, int)
    decreases ops.len(),
{
    if ops.len() == 0 {
        (Reward { mint, reserved: 0, available: 0 }, 0, 0)
    } else {
        let (p, funded, released) = run_pool(mint, ops.drop_last());
        let op = ops.last();
        (pool_op_result(p, op), funded + pool_op_funded(p, op), released + pool_op_released(p, op))
    }
}

/// Reservation invariant: whatever sequence of fund, reserve and release
/// calls a fresh pool sees, the promised balance never exceeds what was
/// cumulatively funded minus what was cumulatively released, and the
/// spendable balance never goes negative. In fact reserved and available
/// together account exactly for the funded-minus-released total.
pub proof fn lemma_reservation_invariant(mint: Key, ops: Seq<PoolOp>)
    ensures
        ({
            let (p, funded, released) = run_pool(mint, ops);
            &&& p.reserved + p.available == funded - released
            &&& p.reserved <= funded - released
            &&& p.available >= 0
        }),
    decreases ops.len(),
{
    if ops.len() > 0 {
        lemma_reservation_invariant(mint, ops.drop_last());
    }
}

} // verus!
