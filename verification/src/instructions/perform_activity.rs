use vstd::prelude::*;
use crate::ActivityPerformed;
use crate::errors::ZenBeastsError;
use crate::identity::Identity;
use crate::state::beast_account::BeastAccount;
use crate::state::program_config::ProgramConfig;
use crate::utils::cooldown::can_act;
use crate::utils::rewards::{calculate_rewards_due, rewards_due, rewards_earned};

verus! {

/// The highest activity type there is.
pub const MAX_ACTIVITY_TYPE: u8 = 2;

/// An activity that was performed: the record of it, and the creature as the
/// activity leaves it.
pub struct Activity {
    pub event: ActivityPerformed,
    pub beast: BeastAccount,
}

/// An activity.
///
/// The activity type must be 0, 1 or 2, the payer must control the creature, and
/// the creature's activity cooldown must be over. The rewards earned since the
/// last activity are added to the pending ones, the activity is counted, and
/// `current_time` becomes the time of the last activity. An activity count at its
/// limit is an overflow.
pub open spec fn activity(
    beast: BeastAccount,
    config: ProgramConfig,
    payer: Identity,
    activity_type: u8,
    current_time: i64,
) -> Result<Activity, ZenBeastsError> {
    let earned = rewards_earned(beast.last_activity, config.reward_rate, current_time);
    let due = rewards_due(
        beast.pending_rewards,
        beast.last_activity,
        config.reward_rate,
        current_time,
    );
    if activity_type > MAX_ACTIVITY_TYPE {
        Err(ZenBeastsError::InvalidActivityType)
    } else if beast.owner != payer {
        Err(ZenBeastsError::NotOwner)
    } else if !can_act(current_time, beast.last_activity, config.activity_cooldown) {
        Err(ZenBeastsError::CooldownActive)
    } else if due is Err {
        Err(due->Err_0)
    } else if beast.activity_count == u32::MAX {
        Err(ZenBeastsError::ArithmeticOverflow)
    } else {
        Ok(
            Activity {
                event: ActivityPerformed {
                    beast: beast.mint,
                    activity_type,
                    timestamp: current_time,
                    rewards_earned: earned->Ok_0,
                },
                beast: BeastAccount {
                    pending_rewards: due->Ok_0,
                    last_activity: current_time,
                    activity_count: (beast.activity_count + 1) as u32,
                    ..beast
                },
            },
        )
    }
}

/// An activity adds what it earned to the pending rewards, and leaves a sound
/// creature sound and in or out of combat as it was.
pub proof fn lemma_activity_accrues(
    beast: BeastAccount,
    config: ProgramConfig,
    payer: Identity,
    activity_type: u8,
    current_time: i64,
)
    ensures
        activity(beast, config, payer, activity_type, current_time) matches Ok(done) ==> {
            &&& done.beast.pending_rewards == beast.pending_rewards + done.event.rewards_earned
            &&& done.beast.combat_stats == beast.combat_stats
            &&& beast.wf() ==> done.beast.wf()
        },
{
    if beast.last_activity > 0 && current_time >= beast.last_activity {
        assert((current_time - beast.last_activity) * config.reward_rate >= 0) by (nonlinear_arith)
            requires
                current_time - beast.last_activity >= 0,
                config.reward_rate >= 0,
        ;
    }
}

/// Performs an activity with the creature. Where it refuses, nothing is changed.
pub fn handler(
    beast: &mut BeastAccount,
    config: &ProgramConfig,
    payer: Identity,
    activity_type: u8,
    current_time: i64,
) -> (r: Result<ActivityPerformed, ZenBeastsError>)
    ensures
        match activity(*old(beast), *config, payer, activity_type, current_time) {
            Ok(done) => {
                &&& r == Ok::<ActivityPerformed, ZenBeastsError>(done.event)
                &&& *final(beast) == done.beast
            },
            Err(e) => {
                &&& r == Err::<ActivityPerformed, ZenBeastsError>(e)
                &&& *final(beast) == *old(beast)
            },
        },
{
    if activity_type > MAX_ACTIVITY_TYPE {
        return Err(ZenBeastsError::InvalidActivityType);
    }
    if beast.owner != payer {
        return Err(ZenBeastsError::NotOwner);
    }
    if !beast.can_perform_activity(current_time, config.activity_cooldown) {
        return Err(ZenBeastsError::CooldownActive);
    }
    let pending = match calculate_rewards_due(
        beast.pending_rewards,
        beast.last_activity,
        config.reward_rate,
        current_time,
    ) {
        Ok(total) => total,
        Err(e) => {
            return Err(e);
        },
    };
    proof {
        if beast.last_activity > 0 {
            assert((current_time - beast.last_activity) * config.reward_rate >= 0)
                by (nonlinear_arith)
                requires
                    current_time - beast.last_activity >= 0,
                    config.reward_rate >= 0,
            ;
        }
    }
    let rewards_earned = pending - beast.pending_rewards;
    if beast.activity_count == u32::MAX {
        return Err(ZenBeastsError::ArithmeticOverflow);
    }
    beast.pending_rewards = pending;
    beast.update_activity(current_time);
    Ok(
        ActivityPerformed {
            beast: beast.mint,
            activity_type,
            timestamp: current_time,
            rewards_earned,
        },
    )
}

} // verus!
