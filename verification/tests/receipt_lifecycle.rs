use staking_core::error::StakingError;
use staking_core::key::Key;
use staking_core::stake_receipt::{Buff, StakeReceipt};

fn key(n: u64) -> Key {
    Key { w0: n, w1: 0, w2: 0, w3: 0 }
}

fn running_receipt(rate: u64) -> StakeReceipt {
    let mut receipt = StakeReceipt::unused();
    receipt
        .stake(1, key(10), key(11), key(12), 50, rate, 100)
        .unwrap();
    receipt
}

#[test]
fn first_stake_initialises_the_receipt() {
    let mut receipt = StakeReceipt::unused();
    assert!(receipt.is_running());
    assert_eq!(receipt.stake(5, key(10), key(11), key(12), 50, 42, 100), Ok(()));
    assert_eq!(receipt.farmer, key(11));
    assert_eq!(receipt.mint, key(12));
    assert_eq!(receipt.lock, key(10));
    assert_eq!(receipt.start_ts, 100);
    assert_eq!(receipt.end_ts, None);
    assert_eq!(receipt.amount, 5);
    assert_eq!(receipt.reward_rate, 42);
    assert!(receipt.buff.is_none());
    assert!(receipt.is_running());
}

#[test]
fn staking_a_running_receipt_fails() {
    let mut receipt = running_receipt(10);
    assert_eq!(
        receipt.stake(1, key(10), key(11), key(12), 50, 10, 500),
        Err(StakingError::GemStillStaked)
    );
}

#[test]
fn cooldown_is_enforced_and_boundary_succeeds() {
    // Cooldown enforcement: restaking before the cooldown elapses fails;
    // restaking at exactly the cooldown boundary succeeds.
    let mut receipt = running_receipt(10);
    receipt.end_ts = Some(200);
    let mut early = receipt;
    assert_eq!(
        early.stake(1, key(10), key(11), key(12), 50, 10, 249),
        Err(StakingError::CooldownIsNotOver)
    );
    assert_eq!(early.end_ts, Some(200));
    let mut exact = receipt;
    assert_eq!(exact.stake(2, key(20), key(11), key(12), 50, 11, 250), Ok(()));
    assert_eq!(exact.start_ts, 250);
    assert_eq!(exact.end_ts, None);
    assert_eq!(exact.lock, key(20));
    assert_eq!(exact.amount, 2);
    assert_eq!(exact.reward_rate, 11);
    // The restake may use a different lock, but farmer and asset stay.
    assert_eq!(exact.farmer, key(11));
    assert_eq!(exact.mint, key(12));
}

#[test]
fn restake_cooldown_overflow_is_fatal() {
    let mut receipt = running_receipt(10);
    receipt.end_ts = Some(u64::MAX);
    assert_eq!(
        receipt.stake(1, key(10), key(11), key(12), 1, 10, u64::MAX),
        Err(StakingError::ArithmeticError)
    );
}

#[test]
fn buff_multiplies_rate_and_records_the_buff() {
    // Buff with factor 3: rate 10 becomes 30, delta 20.
    let mut receipt = running_receipt(10);
    assert_eq!(receipt.try_buff(key(5), 3), Ok(20));
    assert_eq!(receipt.reward_rate, 30);
    assert_eq!(receipt.buff, Some(Buff { key: key(5), factor: 3 }));
}

#[test]
fn debuff_restores_exactly_the_prebuff_rate() {
    // Buff reversibility: debuff(buff(rate, f)) == rate, and the deltas
    // cancel.
    let mut receipt = running_receipt(10);
    let up = receipt.try_buff(key(5), 3).unwrap();
    let down = receipt.try_debuff().unwrap();
    assert_eq!(receipt.reward_rate, 10);
    assert_eq!(up, down);
    assert!(receipt.buff.is_none());
}

#[test]
fn buff_reversibility_over_a_range_of_pairs() {
    for rate in [0u64, 1, 7, 10, 999, 1_000_000_007] {
        for factor in [1u64, 2, 3, 10, 1000] {
            let mut receipt = running_receipt(rate);
            let up = receipt.try_buff(key(5), factor).unwrap();
            let down = receipt.try_debuff().unwrap();
            assert_eq!(receipt.reward_rate, rate);
            assert_eq!(up, down);
        }
    }
}

#[test]
fn buff_requires_running_unbuffed_and_positive_factor() {
    let mut cooling = running_receipt(10);
    cooling.end_ts = Some(200);
    assert_eq!(cooling.try_buff(key(5), 3), Err(StakingError::GemNotStaked));

    let mut receipt = running_receipt(10);
    assert_eq!(receipt.try_buff(key(5), 0), Err(StakingError::FactorMustBeGtZero));
    receipt.try_buff(key(5), 3).unwrap();
    assert_eq!(receipt.try_buff(key(6), 2), Err(StakingError::GemAlreadyBuffed));
    assert_eq!(receipt.reward_rate, 30);
}

#[test]
fn buff_overflow_is_fatal() {
    let mut receipt = running_receipt(u64::MAX / 2 + 1);
    assert_eq!(receipt.try_buff(key(5), 2), Err(StakingError::ArithmeticError));
    assert!(receipt.buff.is_none());
}

#[test]
fn debuff_requires_running_and_buffed() {
    let mut receipt = running_receipt(10);
    assert_eq!(receipt.try_debuff(), Err(StakingError::GemNotBuffed));
    receipt.try_buff(key(5), 3).unwrap();
    receipt.end_ts = Some(200);
    assert_eq!(receipt.try_debuff(), Err(StakingError::GemNotStaked));
    assert_eq!(receipt.reward_rate, 30);
}
