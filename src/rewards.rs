use vstd::prelude::*;
use crate::error::ProcessError;

verus! {

/// Length of one accrual day, in seconds.
pub const SECONDS_PER_DAY: i64 = 86_400;

/// Reward per day, in thousandths of the locked amount.
pub const DAILY_REWARD_PER_MILLE: u64 = 1;

/// Share of each reward credited to the fee recipient, in percent.
pub const OWNER_FEE_PERCENTAGE: u64 = 1;

/// How a reward is split between the depositor and the fee recipient.
#[derive(Debug, Clone, Copy, PartialEq, Eq, Structural)]
pub struct RewardSplit {
    pub rewards: u64,
    pub owner_fee: u64,
    pub user_rewards: u64,
}

/// `floor(amount * days * 1 / 1000)`: 0.1% of the amount per day.
pub open spec fn rewards_for(amount: int, days: int) -> int {
    amount * days * DAILY_REWARD_PER_MILLE / 1000
}

/// `floor(rewards * 1 / 100)`: 1% of the rewards.
pub open spec fn fee_for(rewards: int) -> int {
    rewards * OWNER_FEE_PERCENTAGE / 100
}

/// Rewards for `days_elapsed` whole days on `amount_locked`, and their split.
/// The computation runs in 128 bits; a reward that does not fit in 64 bits
/// is `ArithmeticOverflow`.
pub fn compute_rewards(amount_locked: u64, days_elapsed: u64) -> (r: Result<RewardSplit, ProcessError>)
    ensures
        rewards_for(amount_locked as int, days_elapsed as int) <= u64::MAX ==> r == Ok::<RewardSplit, ProcessError>(
            RewardSplit {
                rewards: rewards_for(amount_locked as int, days_elapsed as int) as u64,
                owner_fee: fee_for(rewards_for(amount_locked as int, days_elapsed as int)) as u64,
                user_rewards: (rewards_for(amount_locked as int, days_elapsed as int)
                    - fee_for(rewards_for(amount_locked as int, days_elapsed as int))) as u64,
            },
        ),
        rewards_for(amount_locked as int, days_elapsed as int) > u64::MAX ==> r == Err::<RewardSplit, ProcessError>(
            ProcessError::ArithmeticOverflow,
        ),
{
    assert((amount_locked as int) * (days_elapsed as int) <= u128::MAX) by (nonlinear_arith)
        requires
            amount_locked <= u64::MAX,
            days_elapsed <= u64::MAX,
    ;
    let product: u128 = (amount_locked as u128) * (days_elapsed as u128);
    assert(product * 1 == product);
    let wide: u128 = product / 1000;
    if wide > u64::MAX as u128 {
        return Err(ProcessError::ArithmeticOverflow);
    }
    let rewards: u64 = wide as u64;
    let owner_fee: u64 = rewards / 100;
    assert(rewards * 1 == rewards);
    let user_rewards: u64 = rewards - owner_fee;
    Ok(RewardSplit { rewards, owner_fee, user_rewards })
}

} // verus!
