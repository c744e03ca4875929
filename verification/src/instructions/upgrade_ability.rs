use vstd::prelude::*;
use crate::AbilityUpgraded;
use crate::errors::ZenBeastsError;
use crate::identity::Identity;
use crate::state::beast_account::{with_slot, BeastAccount, MAX_ABILITY_LEVEL};
use crate::state::program_config::ProgramConfig;
use crate::utils::treasury::{halve, halved, Payment};

verus! {

/// An ability upgrade that took place: the record of it, what becomes of its cost,
/// and the creature as the upgrade leaves it.
pub struct AbilityUpgrade {
    pub event: AbilityUpgraded,
    pub payment: Payment,
    pub beast: BeastAccount,
}

/// An ability upgrade.
///
/// The user must control the creature, the slot must be one of the four, its
/// ability must be unlocked and below level 10, and the user must hold the cost:
/// the configured cost times the current level, an overflow if that does not fit
/// 64 bits. The cost is split evenly and the level goes up by one.
pub open spec fn ability_upgrade(
    beast: BeastAccount,
    config: ProgramConfig,
    user: Identity,
    user_balance: u64,
    trait_index: u8,
    current_time: i64,
) -> Result<AbilityUpgrade, ZenBeastsError> {
    let current_level = beast.ability_levels[trait_index as int];
    let cost = config.ability_upgrade_cost * current_level;
    if beast.owner != user {
        Err(ZenBeastsError::NotOwner)
    } else if trait_index >= 4 {
        Err(ZenBeastsError::InvalidTraitIndex)
    } else if beast.abilities[trait_index as int] == 0 {
        Err(ZenBeastsError::AbilityNotUnlocked)
    } else if current_level >= MAX_ABILITY_LEVEL {
        Err(ZenBeastsError::AbilityMaxLevel)
    } else if cost > u64::MAX {
        Err(ZenBeastsError::ArithmeticOverflow)
    } else if user_balance < cost {
        Err(ZenBeastsError::InsufficientFunds)
    } else {
        Ok(
            AbilityUpgrade {
                event: AbilityUpgraded {
                    beast: beast.mint,
                    trait_index,
                    old_level: current_level,
                    new_level: (current_level + 1) as u8,
                    cost_paid: cost as u64,
                    timestamp: current_time,
                },
                payment: halved(cost as u64),
                beast: BeastAccount {
                    ability_levels: with_slot(
                        beast.ability_levels,
                        trait_index,
                        (current_level + 1) as u8,
                    ),
                    ..beast
                },
            },
        )
    }
}

/// An ability upgrade never passes level 10, charges exactly its cost, and leaves
/// a sound creature sound and in or out of combat as it was.
pub proof fn lemma_ability_upgrade_bounded(
    beast: BeastAccount,
    config: ProgramConfig,
    user: Identity,
    user_balance: u64,
    trait_index: u8,
    current_time: i64,
)
    ensures
        ability_upgrade(beast, config, user, user_balance, trait_index, current_time) matches Ok(
            done,
        ) ==> {
            &&& done.beast.ability_levels[trait_index as int] <= MAX_ABILITY_LEVEL
            &&& done.payment.burn_amount + done.payment.treasury_amount == done.event.cost_paid
            &&& done.beast.combat_stats == beast.combat_stats
            &&& beast.wf() ==> done.beast.wf()
        },
{
}

/// Raises the level of an unlocked ability by one and says what is to be paid for
/// it. Where it refuses, nothing is changed.
pub fn handler(
    beast: &mut BeastAccount,
    config: &ProgramConfig,
    user: Identity,
    user_balance: u64,
    trait_index: u8,
    current_time: i64,
) -> (r: Result<(AbilityUpgraded, Payment), ZenBeastsError>)
    ensures
        match ability_upgrade(*old(beast), *config, user, user_balance, trait_index, current_time) {
            Ok(done) => {
                &&& r == Ok::<(AbilityUpgraded, Payment), ZenBeastsError>(
                    (done.event, done.payment),
                )
                &&& *final(beast) == done.beast
            },
            Err(e) => {
                &&& r == Err::<(AbilityUpgraded, Payment), ZenBeastsError>(e)
                &&& *final(beast) == *old(beast)
            },
        },
{
    if beast.owner != user {
        return Err(ZenBeastsError::NotOwner);
    }
    if trait_index >= 4 {
        return Err(ZenBeastsError::InvalidTraitIndex);
    }
    if !(beast.abilities[trait_index as usize] > 0) {
        return Err(ZenBeastsError::AbilityNotUnlocked);
    }
    let current_level = beast.ability_levels[trait_index as usize];
    if current_level >= MAX_ABILITY_LEVEL {
        return Err(ZenBeastsError::AbilityMaxLevel);
    }
    let upgrade_cost = match config.ability_upgrade_cost.checked_mul(current_level as u64) {
        Some(cost) => cost,
        None => {
            return Err(ZenBeastsError::ArithmeticOverflow);
        },
    };
    if user_balance < upgrade_cost {
        return Err(ZenBeastsError::InsufficientFunds);
    }
    let payment = halve(upgrade_cost);
    let new_level = current_level + 1;
    beast.ability_levels[trait_index as usize] = new_level;
    assert(beast.ability_levels =~= with_slot(old(beast).ability_levels, trait_index, new_level));
    Ok(
        (
            AbilityUpgraded {
                beast: beast.mint,
                trait_index,
                old_level: current_level,
                new_level,
                cost_paid: upgrade_cost,
                timestamp: current_time,
            },
            payment,
        ),
    )
}

} // verus!
