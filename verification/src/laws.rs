//! System-wide laws relating the farmer aggregate to its receipts and the
//! accrual engine to time.
//!
//! A farmer's `total_reward_rate` is meant to equal the sum of the rates
//! of that farmer's running receipts at every observable instant. The
//! ledger never holds all of a farmer's receipts in one place — each
//! operation names the few records it touches — so the law is stated over
//! a snapshot of the receipt records and proved preserved by each
//! rate-changing operation, given exactly what that operation's contract
//! ensures.

use vstd::prelude::*;

use crate::farmer::{accrual_increment, Farmer};
use crate::key::Key;
use crate::stake_receipt::StakeReceipt;

verus! {

/// What one receipt contributes to its farmer's total rate: its rate
/// while it runs, nothing while it cools down.
pub open spec fn rate_contribution(r: StakeReceipt) -> int {
    if r.spec_running() {
        r.reward_rate as int
    } else {
        0
    }
}

/// The sum of the rate contributions of a snapshot of receipts.
pub open spec fn running_rate_sum(receipts: Seq<StakeReceipt>) -> int
    decreases receipts.len(),
{
    if receipts.len() == 0 {
        0
    } else {
        running_rate_sum(receipts.drop_last()) + rate_contribution(receipts.last())
    }
}

/// Rate conservation: the farmer's total rate equals the sum of the rates
/// of its running receipts.
pub open spec fn rate_conserved(farmer: Farmer, receipts: Seq<StakeReceipt>) -> bool {
    farmer.total_reward_rate == running_rate_sum(receipts)
}

/// Replacing one receipt in a snapshot changes the sum by exactly the
/// difference of the two contributions.
pub proof fn lemma_rate_sum_update(receipts: Seq<StakeReceipt>, i: int, r: StakeReceipt)
    requires
        0 <= i < receipts.len(),
    ensures
        running_rate_sum(receipts.update(i, r)) == running_rate_sum(receipts) - rate_contribution(
            receipts[i],
        ) + rate_contribution(r),
    decreases receipts.len(),
{
    let updated = receipts.update(i, r);
    if i == receipts.len() - 1 {
        assert(updated.drop_last() =~= receipts.drop_last());
    } else {
        lemma_rate_sum_update(receipts.drop_last(), i, r);
        assert(updated.drop_last() =~= receipts.drop_last().update(i, r));
        assert(updated.last() == receipts.last());
    }
}

/// Rate conservation across a stake: staking receipt `i` — a receipt that
/// contributed nothing, being never used or cooling down — while raising
/// the farmer's total by the new receipt's rate keeps the law.
pub proof fn lemma_stake_preserves_rate_conservation(
    pre: Farmer,
    post: Farmer,
    receipts: Seq<StakeReceipt>,
    i: int,
    staked: StakeReceipt,
)
    requires
        rate_conserved(pre, receipts),
        0 <= i < receipts.len(),
        rate_contribution(receipts[i]) == 0,
        staked.spec_running(),
        post.total_reward_rate == pre.total_reward_rate + staked.reward_rate,
    ensures
        rate_conserved(post, receipts.update(i, staked)),
{
    lemma_rate_sum_update(receipts, i, staked);
}

/// Rate conservation across an unstake: ending running receipt `i` while
/// lowering the farmer's total by exactly that receipt's rate keeps the
/// law.
pub proof fn lemma_unstake_preserves_rate_conservation(
    pre: Farmer,
    post: Farmer,
    receipts: Seq<StakeReceipt>,
    i: int,
    ended: StakeReceipt,
)
    requires
        rate_conserved(pre, receipts),
        0 <= i < receipts.len(),
        receipts[i].spec_running(),
        !ended.spec_running(),
        post.total_reward_rate == pre.total_reward_rate - receipts[i].reward_rate,
    ensures
        rate_conserved(post, receipts.update(i, ended)),
{
    lemma_rate_sum_update(receipts, i, ended);
}

/// Rate conservation across a pair buff: buffing two distinct running
/// receipts while raising the farmer's total by the sum of their two rate
/// deltas keeps the law.
pub proof fn lemma_buff_pair_preserves_rate_conservation(
    pre: Farmer,
    post: Farmer,
    receipts: Seq<StakeReceipt>,
    i: int,
    j: int,
    buff_key: Key,
    factor: u64,
)
    requires
        rate_conserved(pre, receipts),
        0 <= i < receipts.len(),
        0 <= j < receipts.len(),
        i != j,
        receipts[i].buffable(factor),
        receipts[j].buffable(factor),
        post.total_reward_rate == pre.total_reward_rate + receipts[i].buff_delta(factor)
            + receipts[j].buff_delta(factor),
    ensures
        rate_conserved(
            post,
            receipts.update(i, receipts[i].buffed(buff_key, factor)).update(
                j,
                receipts[j].buffed(buff_key, factor),
            ),
        ),
{
    let step = receipts.update(i, receipts[i].buffed(buff_key, factor));
    lemma_rate_sum_update(receipts, i, receipts[i].buffed(buff_key, factor));
    lemma_rate_sum_update(step, j, receipts[j].buffed(buff_key, factor));
    assert(step[j] == receipts[j]);
}

/// Rate conservation across a pair debuff: debuffing two distinct
/// buffed running receipts while lowering the farmer's total by the sum
/// of their two rate deltas keeps the law.
pub proof fn lemma_debuff_pair_preserves_rate_conservation(
    pre: Farmer,
    post: Farmer,
    receipts: Seq<StakeReceipt>,
    i: int,
    j: int,
)
    requires
        rate_conserved(pre, receipts),
        0 <= i < receipts.len(),
        0 <= j < receipts.len(),
        i != j,
        receipts[i].wf(),
        receipts[j].wf(),
        receipts[i].debuffable(),
        receipts[j].debuffable(),
        post.total_reward_rate == pre.total_reward_rate - receipts[i].debuff_delta()
            - receipts[j].debuff_delta(),
    ensures
        rate_conserved(
            post,
            receipts.update(i, receipts[i].debuffed()).update(j, receipts[j].debuffed()),
        ),
{
    let first = receipts[i];
    let second = receipts[j];
    assert(first.reward_rate as int / first.buff->0.factor as int <= first.reward_rate)
        by (nonlinear_arith)
        requires
            first.buff->0.factor >= 1,
            first.reward_rate >= 0,
    ;
    assert(second.reward_rate as int / second.buff->0.factor as int <= second.reward_rate)
        by (nonlinear_arith)
        requires
            second.buff->0.factor >= 1,
            second.reward_rate >= 0,
    ;
    let step = receipts.update(i, receipts[i].debuffed());
    lemma_rate_sum_update(receipts, i, receipts[i].debuffed());
    lemma_rate_sum_update(step, j, receipts[j].debuffed());
    assert(step[j] == receipts[j]);
}

/// Accrual monotonicity: for a fixed total rate, settling accrual never
/// lowers the accrued balance — neither at one instant nor across two
/// successive settlements.
pub proof fn lemma_accrual_monotonic(farmer: Farmer, now1: u64, now2: u64)
    requires
        farmer.accrued_rewards + accrual_increment(farmer, now1) <= u64::MAX,
        farmer.updated(now1).accrued_rewards + accrual_increment(farmer.updated(now1), now2)
            <= u64::MAX,
    ensures
        farmer.updated(now1).accrued_rewards >= farmer.accrued_rewards,
        farmer.updated(now1).updated(now2).accrued_rewards >= farmer.updated(
            now1,
        ).accrued_rewards,
{
    assert(accrual_increment(farmer, now1) >= 0) by (nonlinear_arith);
    assert(accrual_increment(farmer.updated(now1), now2) >= 0) by (nonlinear_arith);
}

/// Settling accrual is idempotent per instant: a second settlement at the
/// same clock reading changes nothing.
pub proof fn lemma_update_idempotent(farmer: Farmer, now: u64)
    requires
        farmer.accrued_rewards + accrual_increment(farmer, now) <= u64::MAX,
    ensures
        farmer.updated(now).updated(now) == farmer.updated(now),
{
    let settled = farmer.updated(now);
    assert(accrual_increment(settled, now) == 0);
}

} // verus!
