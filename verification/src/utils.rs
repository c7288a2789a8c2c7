//! Rate arithmetic shared by the staking operations.
//!
//! All reward arithmetic is fixed-point over the smallest reward-asset
//! unit, with checked operations throughout: a ledger must not store
//! floating-point balances or rates.

use vstd::prelude::*;
use vstd::arithmetic::power::{pow, lemma_pow0, lemma_pow1, lemma_pow_adds, lemma_pow_increases};

use crate::error::StakingError;
use crate::key::Key;

verus! {

/// One creator listed in an asset's metadata: its address and whether the
/// creator's signature was verified on chain.
#[derive(Clone, Copy, Debug, PartialEq, Eq, Structural)]
pub struct Creator {
    pub address: Key,
    pub verified: bool,
}

/// What the ledger reads from an asset's metadata account: the address the
/// account lives at, and its creator list, if any. The identity-proof
/// collaborator deserialises the account and hands this over.
#[derive(Debug)]
pub struct MetadataInfo {
    pub key: Key,
    pub creators: Option<Vec<Creator>>,
}

/// The collection identity an asset's metadata vouches for: the address of
/// its first creator, accepted only when that creator is verified.
pub open spec fn spec_metadata_creator(metadata: MetadataInfo) -> Result<Key, StakingError> {
    match metadata.creators {
        Some(creators) => if creators.len() > 0 && creators[0].verified {
            Ok(creators[0].address)
        } else {
            Err(StakingError::InvalidAccountData)
        },
        None => Err(StakingError::InvalidAccountData),
    }
}

/// Resolve the collection identity out of an asset's metadata: the first
/// creator's address, and only if that creator is verified; anything else
/// is invalid account data.
pub fn metadata_creator(metadata: &MetadataInfo) -> (r: Result<Key, StakingError>)
    ensures
        r == spec_metadata_creator(*metadata),
{
    match &metadata.creators {
        Some(creators) => {
            if creators.len() > 0 {
                let first = creators[0];
                if first.verified {
                    Ok(first.address)
                } else {
                    Err(StakingError::InvalidAccountData)
                }
            } else {
                Err(StakingError::InvalidAccountData)
            }
        },
        None => Err(StakingError::InvalidAccountData),
    }
}

/// Ten to the `decimals`-th power: the scale of a fixed-point token
/// amount.
pub open spec fn spec_pow10(decimals: u32) -> int {
    pow(10, decimals as nat)
}

/// `amount` whole tokens at `decimals` decimal places, spread over the
/// seconds of one day, rounded down.
pub open spec fn spec_tokens_per_second(amount: int, decimals: u32) -> int {
    spec_pow10(decimals) * amount / 86400
}

/// The bonus formula: a factor of zero is a no-op, and a positive factor
/// is a percentage bonus, `base * (factor + 100) / 100`.
pub open spec fn spec_bonus_rate(base: int, factor: int) -> int {
    if factor == 0 {
        base
    } else {
        (factor + 100) * base / 100
    }
}

/// The emission table: whole tokens per day earned at each stake level.
pub open spec fn spec_level_units(level: u8) -> int {
    if level == 0 {
        0
    } else if level == 1 {
        2
    } else if level == 2 {
        3
    } else if level == 3 {
        4
    } else {
        6
    }
}

/// Raise a base rate by a lock's bonus factor: a factor of zero leaves
/// the base untouched; a positive factor yields `(factor + 100) * base /
/// 100`, the percentage-bonus formula. Overflow is a fatal arithmetic
/// fault.
pub fn calculate_reward_rate(base: u64, factor: u64) -> (r: Result<u64, StakingError>)
    ensures
        r is Ok <==> (factor == 0 || (factor + 100 <= u64::MAX && (factor + 100) * base
            <= u64::MAX)),
        r is Ok ==> r == Ok::<u64, StakingError>(spec_bonus_rate(base as int, factor as int) as u64),
        r is Err ==> r == Err::<u64, StakingError>(StakingError::ArithmeticError),
    {
    if factor == 0 {
        return Ok(base);
    }
    let raised = match factor.checked_add(100) {
        Some(f) => f,
        None => {
            return Err(StakingError::ArithmeticError);
        },
    };
    match raised.checked_mul(base) {
        Some(product) => Ok(product / 100),
        None => Err(StakingError::ArithmeticError),
    }
}

/// Convert a whole-token-per-day emission into smallest units per second:
/// `10^decimals * amount / 86400`, rounded down, with checked scaling.
pub fn tokens_per_second(amount: u64, decimals: u32) -> (r: Result<u64, StakingError>)
    ensures
        r is Ok <==> spec_pow10(decimals) <= u64::MAX && spec_pow10(decimals) * amount
            <= u64::MAX,
        r is Ok ==> r == Ok::<u64, StakingError>(
            spec_tokens_per_second(amount as int, decimals) as u64,
        ),
        r is Err ==> r == Err::<u64, StakingError>(StakingError::ArithmeticError),
{
    let mut scale: u64 = 1;
    let mut i: u32 = 0;
    proof {
        lemma_pow0(10);
    }
    while i < decimals
        invariant
            0 <= i <= decimals,
            scale == pow(10, i as nat),
        decreases decimals - i,
    {
        proof {
            lemma_pow_adds(10, i as nat, 1);
            lemma_pow1(10);
        }
        scale = match scale.checked_mul(10) {
            Some(s) => s,
            None => {
                proof {
                    lemma_pow_increases(10, (i + 1) as nat, decimals as nat);
                }
                return Err(StakingError::ArithmeticError);
            },
        };
        i = i + 1;
    }
    match scale.checked_mul(amount) {
        Some(product) => Ok(product / 86400),
        None => Err(StakingError::ArithmeticError),
    }
}

/// Convert a stake level into an earn rate in smallest units per second,
/// via the emission table; levels outside the table are rejected.
pub fn level_emission(level: u8, decimals: u32) -> (r: Result<u64, StakingError>)
    ensures
        level > 4 ==> r == Err::<u64, StakingError>(StakingError::InvalidTripEffect),
        level <= 4 ==> {
            &&& r is Ok <==> spec_pow10(decimals) <= u64::MAX && spec_pow10(decimals)
                * spec_level_units(level) <= u64::MAX
            &&& r is Ok ==> r == Ok::<u64, StakingError>(
                spec_tokens_per_second(spec_level_units(level), decimals) as u64,
            )
            &&& r is Err ==> r == Err::<u64, StakingError>(StakingError::ArithmeticError)
        },
{
    if level > 4 {
        return Err(StakingError::InvalidTripEffect);
    }
    let units: u64 = if level == 0 {
        0
    } else if level == 1 {
        2
    } else if level == 2 {
        3
    } else if level == 3 {
        4
    } else {
        6
    };
    tokens_per_second(units, decimals)
}

} // verus!
