use vstd::prelude::*;
use crate::TraitUpgraded;
use crate::errors::ZenBeastsError;
use crate::identity::Identity;
use crate::state::beast_account::{with_trait_raised, BeastAccount};
use crate::state::program_config::ProgramConfig;
use crate::utils::traits::{calculate_rarity, rarity};
use crate::utils::treasury::{burn_and_transfer, calculate_burn_and_transfer, Payment};

verus! {

/// The highest value of a trait.
pub const MAX_TRAIT_VALUE: u8 = 255;

/// A trait upgrade that took place: the record of it, what becomes of its cost,
/// and the creature as the upgrade leaves it.
pub struct TraitUpgrade {
    pub event: TraitUpgraded,
    pub payment: Payment,
    pub beast: BeastAccount,
}

/// The cost of raising a trait by one from `trait_value`: the base cost times the
/// sum of scaling factor and trait value, over the scaling factor, rounded down.
/// A sum or a product that does not fit 64 bits, and a scaling factor of 0, are an
/// overflow.
pub open spec fn upgrade_cost(base_cost: u64, scaling_factor: u64, trait_value: u8) -> Result<
    u64,
    ZenBeastsError,
> {
    if scaling_factor + trait_value > u64::MAX || base_cost * (scaling_factor + trait_value)
        > u64::MAX || scaling_factor == 0 {
        Err(ZenBeastsError::ArithmeticOverflow)
    } else {
        Ok((base_cost * (scaling_factor + trait_value) / (scaling_factor as int)) as u64)
    }
}

/// A trait upgrade.
///
/// The user must control the creature, the trait must be one of the four core
/// traits and below 255, and the user must hold the cost, which is split by the
/// burn percentage. The trait goes up by one and the rarity score with it.
pub open spec fn upgrade(
    beast: BeastAccount,
    config: ProgramConfig,
    user: Identity,
    user_balance: u64,
    trait_index: u8,
) -> Result<TraitUpgrade, ZenBeastsError> {
    let old_value = beast.traits[trait_index as int];
    let cost = upgrade_cost(config.upgrade_base_cost, config.upgrade_scaling_factor, old_value);
    let split = burn_and_transfer(cost->Ok_0, config.burn_percentage);
    let traits = with_trait_raised(beast.traits, trait_index);
    if beast.owner != user {
        Err(ZenBeastsError::NotOwner)
    } else if trait_index >= 4 {
        Err(ZenBeastsError::InvalidTraitIndex)
    } else if old_value == MAX_TRAIT_VALUE {
        Err(ZenBeastsError::TraitMaxReached)
    } else if cost is Err {
        Err(cost->Err_0)
    } else if user_balance < cost->Ok_0 {
        Err(ZenBeastsError::InsufficientFunds)
    } else if split is Err {
        Err(split->Err_0)
    } else {
        Ok(
            TraitUpgrade {
                event: TraitUpgraded {
                    beast: beast.mint,
                    trait_index,
                    old_value,
                    new_value: (old_value + 1) as u8,
                    cost_paid: cost->Ok_0,
                    new_rarity: rarity(traits@) as u64,
                },
                payment: Payment {
                    burn_amount: split->Ok_0.0,
                    treasury_amount: split->Ok_0.1,
                },
                beast: BeastAccount { traits, rarity_score: rarity(traits@) as u64, ..beast },
            },
        )
    }
}

/// A trait at 255 is never raised: the upgrade is refused. An upgrade that takes
/// place raises the rarity score by one, charges exactly the cost, and leaves a
/// sound creature sound and in or out of combat as it was.
pub proof fn lemma_upgrade_respects_ceiling(
    beast: BeastAccount,
    config: ProgramConfig,
    user: Identity,
    user_balance: u64,
    trait_index: u8,
)
    ensures
        trait_index < 4 && beast.traits[trait_index as int] == MAX_TRAIT_VALUE ==> upgrade(
            beast,
            config,
            user,
            user_balance,
            trait_index,
        ) is Err,
        beast.owner == user && trait_index < 4 && beast.traits[trait_index as int]
            == MAX_TRAIT_VALUE ==> upgrade(beast, config, user, user_balance, trait_index) == Err::<
            TraitUpgrade,
            ZenBeastsError,
        >(ZenBeastsError::TraitMaxReached),
        upgrade(beast, config, user, user_balance, trait_index) matches Ok(done) ==> {
            &&& done.beast.traits[trait_index as int] == beast.traits[trait_index as int] + 1
            &&& done.beast.rarity_score == rarity(beast.traits@) + 1
            &&& done.payment.burn_amount + done.payment.treasury_amount == done.event.cost_paid
            &&& done.event.cost_paid <= user_balance
            &&& done.beast.combat_stats == beast.combat_stats
            &&& beast.wf() ==> done.beast.wf()
        },
{
    let cost = upgrade_cost(
        config.upgrade_base_cost,
        config.upgrade_scaling_factor,
        beast.traits[trait_index as int],
    );
    if cost is Ok {
        crate::utils::treasury::lemma_split_is_exact(cost->Ok_0, config.burn_percentage);
    }
}

/// The cost of raising a trait by one from `trait_value`.
pub fn calculate_upgrade_cost(config: &ProgramConfig, trait_value: u8) -> (r: Result<
    u64,
    ZenBeastsError,
>)
    ensures
        r == upgrade_cost(config.upgrade_base_cost, config.upgrade_scaling_factor, trait_value),
{
    let scaling_factor = config.upgrade_scaling_factor;
    let base_cost = config.upgrade_base_cost;
    let sum = match scaling_factor.checked_add(trait_value as u64) {
        Some(s) => s,
        None => {
            return Err(ZenBeastsError::ArithmeticOverflow);
        },
    };
    let numerator = match base_cost.checked_mul(sum) {
        Some(n) => n,
        None => {
            return Err(ZenBeastsError::ArithmeticOverflow);
        },
    };
    if scaling_factor == 0 {
        return Err(ZenBeastsError::ArithmeticOverflow);
    }
    Ok(numerator / scaling_factor)
}

/// Raises a core trait of the creature by one and says what is to be paid for it.
/// Where it refuses, nothing is changed.
pub fn handler(
    beast: &mut BeastAccount,
    config: &ProgramConfig,
    user: Identity,
    user_balance: u64,
    trait_index: u8,
) -> (r: Result<(TraitUpgraded, Payment), ZenBeastsError>)
    ensures
        match upgrade(*old(beast), *config, user, user_balance, trait_index) {
            Ok(done) => {
                &&& r == Ok::<(TraitUpgraded, Payment), ZenBeastsError>((done.event, done.payment))
                &&& *final(beast) == done.beast
            },
            Err(e) => {
                &&& r == Err::<(TraitUpgraded, Payment), ZenBeastsError>(e)
                &&& *final(beast) == *old(beast)
            },
        },
{
    if beast.owner != user {
        return Err(ZenBeastsError::NotOwner);
    }
    if trait_index >= 4 {
        return Err(ZenBeastsError::InvalidTraitIndex);
    }
    let old_value = beast.traits[trait_index as usize];
    if old_value == MAX_TRAIT_VALUE {
        return Err(ZenBeastsError::TraitMaxReached);
    }
    let upgrade_cost = match calculate_upgrade_cost(config, old_value) {
        Ok(cost) => cost,
        Err(e) => {
            return Err(e);
        },
    };
    if user_balance < upgrade_cost {
        return Err(ZenBeastsError::InsufficientFunds);
    }
    let (burn_amount, treasury_amount) = match calculate_burn_and_transfer(
        upgrade_cost,
        config.burn_percentage,
    ) {
        Ok(parts) => parts,
        Err(e) => {
            return Err(e);
        },
    };
    let new_value = old_value + 1;
    beast.traits[trait_index as usize] = new_value;
    assert(beast.traits =~= with_trait_raised(old(beast).traits, trait_index));
    let new_rarity = calculate_rarity(&beast.traits);
    beast.rarity_score = new_rarity;
    Ok(
        (
            TraitUpgraded {
                beast: beast.mint,
                trait_index,
                old_value,
                new_value,
                cost_paid: upgrade_cost,
                new_rarity,
            },
            Payment { burn_amount, treasury_amount },
        ),
    )
}

} // verus!
