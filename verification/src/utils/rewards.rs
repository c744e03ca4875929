use vstd::prelude::*;
use crate::errors::ZenBeastsError;

verus! {

/// The rewards a creature has to its name at `current_time`: what was pending,
/// and, once it has been active, the reward rate for every second since its last
/// activity.
///
/// A last activity that lies after `current_time` is an underflow; rewards that do
/// not fit 64 bits are an overflow.
pub open spec fn rewards_due(
    pending_rewards: u64,
    last_activity: i64,
    reward_rate: u64,
    current_time: i64,
) -> Result<u64, ZenBeastsError> {
    if last_activity <= 0 {
        Ok(pending_rewards)
    } else if current_time < last_activity {
        Err(ZenBeastsError::ArithmeticUnderflow)
    } else if (current_time - last_activity) * reward_rate > u64::MAX || pending_rewards + (
    current_time - last_activity) * reward_rate > u64::MAX {
        Err(ZenBeastsError::ArithmeticOverflow)
    } else {
        Ok((pending_rewards + (current_time - last_activity) * reward_rate) as u64)
    }
}

/// The rewards earned since the last activity alone: [`rewards_due`] with nothing
/// pending.
pub open spec fn rewards_earned(last_activity: i64, reward_rate: u64, current_time: i64) -> Result<
    u64,
    ZenBeastsError,
> {
    rewards_due(0, last_activity, reward_rate, current_time)
}

/// Computes [`rewards_due`].
pub fn calculate_rewards_due(
    pending_rewards: u64,
    last_activity: i64,
    reward_rate: u64,
    current_time: i64,
) -> (r: Result<u64, ZenBeastsError>)
    ensures
        r == rewards_due(pending_rewards, last_activity, reward_rate, current_time),
{
    if last_activity > 0 {
        if current_time < last_activity {
            return Err(ZenBeastsError::ArithmeticUnderflow);
        }
        let time_elapsed: i64 = current_time - last_activity;
        let calculated_rewards = match (time_elapsed as u64).checked_mul(reward_rate) {
            Some(rewards) => rewards,
            None => {
                return Err(ZenBeastsError::ArithmeticOverflow);
            },
        };
        match pending_rewards.checked_add(calculated_rewards) {
            Some(total) => Ok(total),
            None => Err(ZenBeastsError::ArithmeticOverflow),
        }
    } else {
        Ok(pending_rewards)
    }
}

} // verus!
