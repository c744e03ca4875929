use vstd::prelude::*;
use crate::AbilityUnlocked;
use crate::errors::ZenBeastsError;
use crate::identity::Identity;
use crate::state::beast_account::{with_slot, BeastAccount};
use crate::state::program_config::ProgramConfig;
use crate::utils::treasury::{halve, halved, Payment};

verus! {

/// An ability that was unlocked: the record of it, what becomes of its cost, and
/// the creature as the unlocking leaves it.
pub struct Unlocking {
    pub event: AbilityUnlocked,
    pub payment: Payment,
    pub beast: BeastAccount,
}

/// The unlocking of an ability.
///
/// The user must control the creature, the slot must be one of the four and hold
/// no ability yet, the ability must not be 0, and the user must hold the
/// configured cost, which is split evenly. The ability starts at level 1.
pub open spec fn unlocking(
    beast: BeastAccount,
    config: ProgramConfig,
    user: Identity,
    user_balance: u64,
    trait_index: u8,
    ability_id: u8,
    current_time: i64,
) -> Result<Unlocking, ZenBeastsError> {
    if beast.owner != user {
        Err(ZenBeastsError::NotOwner)
    } else if trait_index >= 4 {
        Err(ZenBeastsError::InvalidTraitIndex)
    } else if ability_id == 0 {
        Err(ZenBeastsError::InvalidAbilityId)
    } else if beast.abilities[trait_index as int] != 0 {
        Err(ZenBeastsError::AbilityAlreadyUnlocked)
    } else if user_balance < config.ability_unlock_cost {
        Err(ZenBeastsError::InsufficientFunds)
    } else {
        Ok(
            Unlocking {
                event: AbilityUnlocked {
                    beast: beast.mint,
                    trait_index,
                    ability_id,
                    cost_paid: config.ability_unlock_cost,
                    timestamp: current_time,
                },
                payment: halved(config.ability_unlock_cost),
                beast: BeastAccount {
                    abilities: with_slot(beast.abilities, trait_index, ability_id),
                    ability_levels: with_slot(beast.ability_levels, trait_index, 1),
                    ..beast
                },
            },
        )
    }
}

/// An ability is unlocked once: a slot that holds one refuses another. An
/// unlocking charges exactly its cost and leaves a sound creature sound and in or
/// out of combat as it was.
pub proof fn lemma_unlocks_once(
    beast: BeastAccount,
    config: ProgramConfig,
    user: Identity,
    user_balance: u64,
    trait_index: u8,
    ability_id: u8,
    current_time: i64,
    again: u8,
)
    ensures
        unlocking(beast, config, user, user_balance, trait_index, ability_id, current_time) matches Ok(
            done,
        ) ==> {
            &&& unlocking(done.beast, config, user, user_balance, trait_index, again, current_time) is Err
            &&& done.payment.burn_amount + done.payment.treasury_amount == done.event.cost_paid
            &&& done.beast.combat_stats == beast.combat_stats
            &&& beast.wf() ==> done.beast.wf()
        },
{
}

/// Unlocks an ability for a core trait of the creature and says what is to be paid
/// for it. Where it refuses, nothing is changed.
pub fn handler(
    beast: &mut BeastAccount,
    config: &ProgramConfig,
    user: Identity,
    user_balance: u64,
    trait_index: u8,
    ability_id: u8,
    current_time: i64,
) -> (r: Result<(AbilityUnlocked, Payment), ZenBeastsError>)
    ensures
        match unlocking(
            *old(beast),
            *config,
            user,
            user_balance,
            trait_index,
            ability_id,
            current_time,
        ) {
            Ok(done) => {
                &&& r == Ok::<(AbilityUnlocked, Payment), ZenBeastsError>(
                    (done.event, done.payment),
                )
                &&& *final(beast) == done.beast
            },
            Err(e) => {
                &&& r == Err::<(AbilityUnlocked, Payment), ZenBeastsError>(e)
                &&& *final(beast) == *old(beast)
            },
        },
{
    if beast.owner != user {
        return Err(ZenBeastsError::NotOwner);
    }
    if trait_index >= 4 {
        return Err(ZenBeastsError::InvalidTraitIndex);
    }
    if ability_id == 0 {
        return Err(ZenBeastsError::InvalidAbilityId);
    }
    if beast.abilities[trait_index as usize] != 0 {
        return Err(ZenBeastsError::AbilityAlreadyUnlocked);
    }
    if user_balance < config.ability_unlock_cost {
        return Err(ZenBeastsError::InsufficientFunds);
    }
    let cost = config.ability_unlock_cost;
    let payment = halve(cost);
    beast.abilities[trait_index as usize] = ability_id;
    beast.ability_levels[trait_index as usize] = 1;
    assert(beast.abilities =~= with_slot(old(beast).abilities, trait_index, ability_id));
    assert(beast.ability_levels =~= with_slot(old(beast).ability_levels, trait_index, 1));
    Ok(
        (
            AbilityUnlocked {
                beast: beast.mint,
                trait_index,
                ability_id,
                cost_paid: cost,
                timestamp: current_time,
            },
            payment,
        ),
    )
}

} // verus!
