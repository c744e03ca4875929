use vstd::prelude::*;
use crate::identity::Identity;

verus! {

/// The settings of the game, handed to every rule that reads one.
#[derive(Clone, Copy, Debug, PartialEq, Eq)]
pub struct ProgramConfig {
    /// Who may change the settings.
    pub authority: Identity,
    /// The mint of the game's token.
    pub zen_mint: Identity,
    /// The account that collects what is paid and not burned.
    pub treasury: Identity,
    /// Seconds between two activities of a creature.
    pub activity_cooldown: i64,
    /// Seconds between two breedings of a creature.
    pub breeding_cooldown: i64,
    /// How often a creature may breed.
    pub max_breeding_count: u8,
    /// Base cost of a trait upgrade.
    pub upgrade_base_cost: u64,
    /// Scaling factor of trait upgrade costs.
    pub upgrade_scaling_factor: u64,
    /// Cost of breeding two creatures that were not bred themselves.
    pub breeding_base_cost: u64,
    /// Factor on the breeding cost per generation.
    pub generation_multiplier: u64,
    /// Tokens earned per second between activities.
    pub reward_rate: u64,
    /// Share of a payment that is burned, in percent.
    pub burn_percentage: u8,
    /// Cost of unlocking an ability.
    pub ability_unlock_cost: u64,
    /// Cost of an ability upgrade, per current level.
    pub ability_upgrade_cost: u64,
    /// Seconds between two fights of a creature.
    pub combat_cooldown: i64,
    /// Least wager of a fight.
    pub min_combat_wager: u64,
    /// Greatest wager of a fight.
    pub max_combat_wager: u64,
    /// Seconds a side has for its turn.
    pub combat_turn_timeout: i64,
    /// Share of the pot that the winner receives, in percent.
    pub combat_winner_percentage: u8,
    /// Creatures made so far.
    pub total_minted: u64,
    /// Thresholds of the rarity tiers, Common to Legendary.
    pub rarity_thresholds: [u64; 5],
    /// Bump of the account's address.
    pub bump: u8,
}

impl ProgramConfig {
    /// What holds of every configuration that the game made and changed: both
    /// percentages are at most 100, the activity and breeding cooldowns, the base
    /// costs, the scaling factor and the reward rate are positive, and the rarity
    /// thresholds ascend.
    pub open spec fn wf(&self) -> bool {
        &&& self.burn_percentage <= 100
        &&& self.combat_winner_percentage <= 100
        &&& self.activity_cooldown > 0
        &&& self.breeding_cooldown > 0
        &&& self.upgrade_base_cost > 0
        &&& self.upgrade_scaling_factor > 0
        &&& self.breeding_base_cost > 0
        &&& self.reward_rate > 0
        &&& forall|i: int, j: int|
            0 <= i < j < 5 ==> self.rarity_thresholds[i] < self.rarity_thresholds[j]
    }
}

} // verus!
