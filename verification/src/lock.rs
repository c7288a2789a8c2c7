//! Lock policies.
//!
//! A lock policy is immutable, farm-scoped configuration: how long a stake
//! must run before it may be unstaked, how long it must then cool down
//! before the asset can be staked again, and which bonus tier it earns.
//! Policies are created in batch by a farm manager, identified by
//! (farm, duration, cooldown), and never mutated or deleted.

use vstd::prelude::*;

use crate::key::Key;

verus! {

/// One staking tier of a farm.
#[derive(Clone, Copy, Debug, PartialEq, Eq, Structural)]
pub struct Lock {
    pub farm: Key,
    pub duration: u64,
    pub cooldown: u64,
    pub bonus_factor: u8,
}

/// The parameters a farm manager supplies for one new lock policy.
#[derive(Clone, Copy, Debug, PartialEq, Eq, Structural)]
pub struct LockConfig {
    pub duration: u64,
    pub bonus_factor: u8,
    pub cooldown: u64,
}

impl Lock {
    /// A policy for `farm` with the given parameters.
    pub fn new(farm: Key, config: LockConfig) -> (r: Lock)
        ensures
            r.farm == farm,
            r.duration == config.duration,
            r.cooldown == config.cooldown,
            r.bonus_factor == config.bonus_factor,
    {
        Lock {
            farm,
            duration: config.duration,
            cooldown: config.cooldown,
            bonus_factor: config.bonus_factor,
        }
    }

    /// How long a stake under this policy must run, in seconds.
    pub fn duration_seconds(&self) -> (r: u64)
        ensures
            r == self.duration,
    {
        self.duration
    }

    /// How long an unstaked asset must cool down before restaking, in
    /// seconds.
    pub fn cooldown_seconds(&self) -> (r: u64)
        ensures
            r == self.cooldown,
    {
        self.cooldown
    }

    /// The percentage bonus tier this policy earns.
    pub fn bonus_factor(&self) -> (r: u8)
        ensures
            r == self.bonus_factor,
    {
        self.bonus_factor
    }
}

} // verus!
