use staking_core::error::StakingError;
use staking_core::farm::{Farm, Reward};
use staking_core::key::Key;
use staking_core::utils::{calculate_reward_rate, level_emission, tokens_per_second};

fn key(n: u64) -> Key {
    Key { w0: n, w1: 0, w2: 0, w3: 0 }
}

#[test]
fn fresh_farm_pool_is_zeroed() {
    let farm = Farm::new(key(1), key(2), 7);
    assert_eq!(farm.authority, key(1));
    assert_eq!(farm.reward.mint, key(2));
    assert_eq!(farm.reward.reserved, 0);
    assert_eq!(farm.reward.available, 0);
    assert_eq!(farm.bump, 7);
}

#[test]
fn fund_raises_available_only() {
    let mut pool = Reward::new(key(1));
    assert_eq!(pool.try_fund(250), Ok(()));
    assert_eq!(pool.available, 250);
    assert_eq!(pool.reserved, 0);
    assert_eq!(pool.try_fund(0), Ok(()));
    assert_eq!(pool.available, 250);
}

#[test]
fn fund_overflow_is_fatal() {
    let mut pool = Reward::new(key(1));
    assert_eq!(pool.try_fund(u64::MAX), Ok(()));
    assert_eq!(pool.try_fund(1), Err(StakingError::ArithmeticError));
    assert_eq!(pool.available, u64::MAX);
}

#[test]
fn reserve_moves_increment_out_of_available() {
    let mut pool = Reward::new(key(1));
    pool.try_fund(1000).unwrap();
    assert_eq!(pool.try_reserve(300), Ok(()));
    assert_eq!(pool.reserved, 300);
    assert_eq!(pool.available, 700);
}

#[test]
fn reserve_is_conservative_about_total_headroom() {
    // available must cover the whole reservation level reached, not just
    // the increment: after reserving 300 out of 1000, another 500 would
    // reach level 800 with only 700 spendable.
    let mut pool = Reward::new(key(1));
    pool.try_fund(1000).unwrap();
    pool.try_reserve(300).unwrap();
    assert_eq!(pool.try_reserve(500), Err(StakingError::CouldNotReserveReward));
    assert_eq!(pool.reserved, 300);
    assert_eq!(pool.available, 700);
    assert_eq!(pool.try_reserve(200), Ok(()));
    assert_eq!(pool.reserved, 500);
    assert_eq!(pool.available, 500);
}

#[test]
fn release_shrinks_reserved_and_fails_past_zero() {
    let mut pool = Reward::new(key(1));
    pool.try_fund(100).unwrap();
    pool.try_reserve(40).unwrap();
    assert_eq!(pool.try_release(25), Ok(()));
    assert_eq!(pool.reserved, 15);
    assert_eq!(pool.try_release(16), Err(StakingError::CouldNotReleaseReward));
    assert_eq!(pool.reserved, 15);
}

#[test]
fn reservation_invariant_over_a_call_sequence() {
    // Reservation invariant: reserved stays within cumulative funded
    // minus cumulative released over a mixed sequence of calls.
    let mut pool = Reward::new(key(1));
    let mut funded: u128 = 0;
    let mut released: u128 = 0;
    let calls: [(u8, u64); 9] = [
        (0, 500),
        (1, 200),
        (1, 400),
        (2, 100),
        (0, 50),
        (1, 300),
        (2, 500),
        (2, 1),
        (1, 1),
    ];
    for (kind, amount) in calls {
        match kind {
            0 => {
                if pool.try_fund(amount).is_ok() {
                    funded += amount as u128;
                }
            }
            1 => {
                let _ = pool.try_reserve(amount);
            }
            _ => {
                if pool.try_release(amount).is_ok() {
                    released += amount as u128;
                }
            }
        }
        assert!((pool.reserved as u128) + (pool.available as u128) == funded - released);
        assert!((pool.reserved as u128) <= funded - released);
    }
}

#[test]
fn bonus_formula_exact_values() {
    // factor 0 is a no-op, not a zeroing multiplier.
    assert_eq!(calculate_reward_rate(10, 0), Ok(10));
    // (50 + 100) * 10 / 100 = 15.
    assert_eq!(calculate_reward_rate(10, 50), Ok(15));
    // (100 + 100) * 7 / 100 = 14: factor 100 doubles the rate.
    assert_eq!(calculate_reward_rate(7, 100), Ok(14));
    // Truncating division: (30 + 100) * 1 / 100 = 1.
    assert_eq!(calculate_reward_rate(1, 30), Ok(1));
}

#[test]
fn bonus_formula_overflow_is_fatal() {
    assert_eq!(calculate_reward_rate(u64::MAX, 1), Err(StakingError::ArithmeticError));
    assert_eq!(calculate_reward_rate(1, u64::MAX), Err(StakingError::ArithmeticError));
    // A zero factor never multiplies, so nothing can overflow.
    assert_eq!(calculate_reward_rate(u64::MAX, 0), Ok(u64::MAX));
}

#[test]
fn tokens_per_second_exact_values() {
    // One whole token per day at zero decimals is one unit per day.
    assert_eq!(tokens_per_second(86400, 0), Ok(1));
    // 10^2 * 864 / 86400 = 1.
    assert_eq!(tokens_per_second(864, 2), Ok(1));
    // Small emissions at two decimals round down to zero.
    assert_eq!(tokens_per_second(6, 2), Ok(0));
}

#[test]
fn tokens_per_second_overflow_is_fatal() {
    // 10^20 does not fit in 64 bits.
    assert_eq!(tokens_per_second(0, 20), Err(StakingError::ArithmeticError));
    assert_eq!(tokens_per_second(u64::MAX, 1), Err(StakingError::ArithmeticError));
}

#[test]
fn level_emission_table() {
    // At two decimals every table entry rounds down to zero.
    for level in 0u8..5u8 {
        assert_eq!(level_emission(level, 2), Ok(0));
    }
    // At five decimals the entries are distinguishable: 10^5 * 2 / 86400.
    assert_eq!(level_emission(0, 5), Ok(0));
    assert_eq!(level_emission(1, 5), Ok(2));
    assert_eq!(level_emission(2, 5), Ok(3));
    assert_eq!(level_emission(3, 5), Ok(4));
    assert_eq!(level_emission(4, 5), Ok(6));
}

#[test]
fn level_out_of_table_is_rejected() {
    assert_eq!(level_emission(5, 2), Err(StakingError::InvalidTripEffect));
    assert_eq!(level_emission(255, 2), Err(StakingError::InvalidTripEffect));
}
