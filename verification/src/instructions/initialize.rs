use vstd::prelude::*;
use crate::errors::ZenBeastsError;
use crate::identity::Identity;
use crate::state::program_config::ProgramConfig;

verus! {

/// The thresholds of the rarity tiers that a new configuration starts with.
pub open spec fn default_rarity_thresholds() -> [u64; 5] {
    [400u64, 600u64, 800u64, 950u64, 1020u64]
}

/// Why the settings of a new configuration are refused, if they are: a burn
/// percentage over 100 first, then a winner's percentage over 100, then a cooldown
/// of activity or breeding, a base cost, the reward rate or the scaling factor
/// that is not positive.
pub open spec fn settings_refusal(
    activity_cooldown: i64,
    breeding_cooldown: i64,
    upgrade_base_cost: u64,
    upgrade_scaling_factor: u64,
    breeding_base_cost: u64,
    reward_rate: u64,
    burn_percentage: u8,
    combat_winner_percentage: u8,
) -> Option<ZenBeastsError> {
    if burn_percentage > 100 {
        Some(ZenBeastsError::InvalidBurnPercentage)
    } else if combat_winner_percentage > 100 || activity_cooldown <= 0 || breeding_cooldown <= 0
        || upgrade_base_cost == 0 || breeding_base_cost == 0 || reward_rate == 0
        || upgrade_scaling_factor == 0 {
        Some(ZenBeastsError::InvalidConfiguration)
    } else {
        None
    }
}

/// Makes the first configuration of the game from the given settings: no creature
/// made yet, and the rarity thresholds at 400, 600, 800, 950 and 1020. It is sound
/// whenever it is made.
pub fn handler(
    authority: Identity,
    zen_mint: Identity,
    treasury: Identity,
    bump: u8,
    activity_cooldown: i64,
    breeding_cooldown: i64,
    max_breeding_count: u8,
    upgrade_base_cost: u64,
    upgrade_scaling_factor: u64,
    breeding_base_cost: u64,
    generation_multiplier: u64,
    reward_rate: u64,
    burn_percentage: u8,
    ability_unlock_cost: u64,
    ability_upgrade_cost: u64,
    combat_cooldown: i64,
    min_combat_wager: u64,
    max_combat_wager: u64,
    combat_turn_timeout: i64,
    combat_winner_percentage: u8,
) -> (r: Result<ProgramConfig, ZenBeastsError>)
    ensures
        match settings_refusal(
            activity_cooldown,
            breeding_cooldown,
            upgrade_base_cost,
            upgrade_scaling_factor,
            breeding_base_cost,
            reward_rate,
            burn_percentage,
            combat_winner_percentage,
        ) {
            Some(e) => r == Err::<ProgramConfig, ZenBeastsError>(e),
            None => r == Ok::<ProgramConfig, ZenBeastsError>(
                ProgramConfig {
                    authority,
                    zen_mint,
                    treasury,
                    activity_cooldown,
                    breeding_cooldown,
                    max_breeding_count,
                    upgrade_base_cost,
                    upgrade_scaling_factor,
                    breeding_base_cost,
                    generation_multiplier,
                    reward_rate,
                    burn_percentage,
                    ability_unlock_cost,
                    ability_upgrade_cost,
                    combat_cooldown,
                    min_combat_wager,
                    max_combat_wager,
                    combat_turn_timeout,
                    combat_winner_percentage,
                    total_minted: 0,
                    rarity_thresholds: default_rarity_thresholds(),
                    bump,
                },
            ),
        },
        r matches Ok(config) ==> config.wf(),
{
    if burn_percentage > 100 {
        return Err(ZenBeastsError::InvalidBurnPercentage);
    }
    if combat_winner_percentage > 100 {
        return Err(ZenBeastsError::InvalidConfiguration);
    }
    if !(activity_cooldown > 0 && breeding_cooldown > 0) {
        return Err(ZenBeastsError::InvalidConfiguration);
    }
    if !(upgrade_base_cost > 0 && breeding_base_cost > 0) {
        return Err(ZenBeastsError::InvalidConfiguration);
    }
    if !(reward_rate > 0 && upgrade_scaling_factor > 0) {
        return Err(ZenBeastsError::InvalidConfiguration);
    }
    let rarity_thresholds: [u64; 5] = [400, 600, 800, 950, 1020];
    assert(rarity_thresholds =~= default_rarity_thresholds());
    Ok(
        ProgramConfig {
            authority,
            zen_mint,
            treasury,
            activity_cooldown,
            breeding_cooldown,
            max_breeding_count,
            upgrade_base_cost,
            upgrade_scaling_factor,
            breeding_base_cost,
            generation_multiplier,
            reward_rate,
            burn_percentage,
            ability_unlock_cost,
            ability_upgrade_cost,
            combat_cooldown,
            min_combat_wager,
            max_combat_wager,
            combat_turn_timeout,
            combat_winner_percentage,
            total_minted: 0,
            rarity_thresholds,
            bump,
        },
    )
}

} // verus!
