use vstd::prelude::*;
use crate::RewardsClaimed;
use crate::errors::ZenBeastsError;
use crate::identity::Identity;
use crate::state::beast_account::BeastAccount;
use crate::state::program_config::ProgramConfig;
use crate::utils::rewards::{calculate_rewards_due, rewards_due};

verus! {

/// A claim that was granted: the record of it, whose amount the treasury owes the
/// user, and the creature as the claim leaves it.
pub struct Claim {
    pub event: RewardsClaimed,
    pub beast: BeastAccount,
}

/// A claim of a creature's rewards.
///
/// The user must control the creature, the rewards due must be more than nothing,
/// and the treasury must hold them. The creature is left with nothing pending and
/// `current_time` as the time of its last activity.
pub open spec fn claim(
    beast: BeastAccount,
    config: ProgramConfig,
    user: Identity,
    treasury_balance: u64,
    current_time: i64,
) -> Result<Claim, ZenBeastsError> {
    let due = rewards_due(
        beast.pending_rewards,
        beast.last_activity,
        config.reward_rate,
        current_time,
    );
    if beast.owner != user {
        Err(ZenBeastsError::NotOwner)
    } else if due is Err {
        Err(due->Err_0)
    } else if due->Ok_0 == 0 {
        Err(ZenBeastsError::NoRewardsToClaim)
    } else if treasury_balance < due->Ok_0 {
        Err(ZenBeastsError::InsufficientTreasuryBalance)
    } else {
        Ok(
            Claim {
                event: RewardsClaimed {
                    beast: beast.mint,
                    recipient: user,
                    amount: due->Ok_0,
                    timestamp: current_time,
                },
                beast: BeastAccount { pending_rewards: 0, last_activity: current_time, ..beast },
            },
        )
    }
}

/// A claim never pays more than the treasury holds, and straight after a claim
/// there is nothing to claim. It leaves a sound creature sound and in or out of
/// combat as it was.
pub proof fn lemma_claim_pays_once(
    beast: BeastAccount,
    config: ProgramConfig,
    user: Identity,
    treasury_balance: u64,
    current_time: i64,
    treasury_after: u64,
)
    ensures
        claim(beast, config, user, treasury_balance, current_time) matches Ok(done) ==> {
            &&& 0 < done.event.amount <= treasury_balance
            &&& claim(done.beast, config, user, treasury_after, current_time) == Err::<
                Claim,
                ZenBeastsError,
            >(ZenBeastsError::NoRewardsToClaim)
            &&& done.beast.combat_stats == beast.combat_stats
            &&& beast.wf() ==> done.beast.wf()
        },
{
    assert((current_time - current_time) * config.reward_rate == 0) by (nonlinear_arith);
}

/// Grants the user the creature's rewards. Where it refuses, nothing is changed.
pub fn handler(
    beast: &mut BeastAccount,
    config: &ProgramConfig,
    user: Identity,
    treasury_balance: u64,
    current_time: i64,
) -> (r: Result<RewardsClaimed, ZenBeastsError>)
    ensures
        match claim(*old(beast), *config, user, treasury_balance, current_time) {
            Ok(done) => {
                &&& r == Ok::<RewardsClaimed, ZenBeastsError>(done.event)
                &&& *final(beast) == done.beast
            },
            Err(e) => {
                &&& r == Err::<RewardsClaimed, ZenBeastsError>(e)
                &&& *final(beast) == *old(beast)
            },
        },
{
    if beast.owner != user {
        return Err(ZenBeastsError::NotOwner);
    }
    let total_rewards = match calculate_rewards_due(
        beast.pending_rewards,
        beast.last_activity,
        config.reward_rate,
        current_time,
    ) {
        Ok(total) => total,
        Err(e) => {
            return Err(e);
        },
    };
    if total_rewards == 0 {
        return Err(ZenBeastsError::NoRewardsToClaim);
    }
    if treasury_balance < total_rewards {
        return Err(ZenBeastsError::InsufficientTreasuryBalance);
    }
    beast.pending_rewards = 0;
    beast.last_activity = current_time;
    Ok(
        RewardsClaimed {
            beast: beast.mint,
            recipient: user,
            amount: total_rewards,
            timestamp: current_time,
        },
    )
}

} // verus!
