use vstd::prelude::*;
use crate::identity::Identity;
use crate::utils::cooldown::{can_act, cooldown_over};
use crate::utils::traits::{calculate_rarity, rarity, reserved_slots_clear};

verus! {

/// The highest level an ability can reach.
pub const MAX_ABILITY_LEVEL: u8 = 10;

/// The energy of a rested creature, and the most it can hold.
pub const MAX_ENERGY: u8 = 100;

/// What a creature carries from fight to fight.
#[derive(Clone, Copy, Debug, PartialEq, Eq, Structural)]
pub struct CombatStats {
    /// Current hit points, at most ten times the vitality trait.
    pub hp: u16,
    /// Energy for abilities, at most 100.
    pub energy: u8,
    /// Fights won.
    pub wins: u32,
    /// Fights lost.
    pub losses: u32,
    /// Time of the last fight's start, 0 before the first.
    pub last_combat: i64,
    /// Whether the creature is in a fight that has not been settled.
    pub in_combat: bool,
}

/// A creature.
#[derive(Clone, Debug, PartialEq, Eq)]
pub struct BeastAccount {
    /// The creature's own identity.
    pub mint: Identity,
    /// Who controls it.
    pub owner: Identity,
    /// Ten trait slots; the first four are strength, agility, wisdom, vitality.
    pub traits: [u8; 10],
    /// Sum of the four core traits.
    pub rarity_score: u64,
    /// Time of the last activity or claim, 0 before the first.
    pub last_activity: i64,
    /// Activities performed.
    pub activity_count: u32,
    /// Rewards earned and not yet claimed.
    pub pending_rewards: u64,
    /// The parents; both zero for a creature that was not bred.
    pub parents: [Identity; 2],
    /// 0 for a creature that was not bred, else one more than the elder parent's.
    pub generation: u8,
    /// Time of the last breeding, 0 before the first.
    pub last_breeding: i64,
    /// Times this creature has bred.
    pub breeding_count: u8,
    /// Per core trait, the ability unlocked for it; 0 where none is.
    pub abilities: [u8; 4],
    /// Per core trait, the level of its ability, 0 to 10.
    pub ability_levels: [u8; 4],
    /// State carried from fight to fight.
    pub combat_stats: CombatStats,
    /// Where the creature's description is kept.
    pub metadata_uri: String,
    /// Bump of the account's address.
    pub bump: u8,
}

/// The four slots `slots` with `value` in place `index`.
pub open spec fn with_slot(slots: [u8; 4], index: u8, value: u8) -> [u8; 4] {
    [
        if index == 0 {
            value
        } else {
            slots[0]
        },
        if index == 1 {
            value
        } else {
            slots[1]
        },
        if index == 2 {
            value
        } else {
            slots[2]
        },
        if index == 3 {
            value
        } else {
            slots[3]
        },
    ]
}

/// The traits `traits` with the core trait `index` one higher.
pub open spec fn with_trait_raised(traits: [u8; 10], index: u8) -> [u8; 10] {
    [
        if index == 0 {
            (traits[0] + 1) as u8
        } else {
            traits[0]
        },
        if index == 1 {
            (traits[1] + 1) as u8
        } else {
            traits[1]
        },
        if index == 2 {
            (traits[2] + 1) as u8
        } else {
            traits[2]
        },
        if index == 3 {
            (traits[3] + 1) as u8
        } else {
            traits[3]
        },
        traits[4],
        traits[5],
        traits[6],
        traits[7],
        traits[8],
        traits[9],
    ]
}

/// The creature that comes into being with the given identity, controller, traits,
/// parents, generation and description: rested, out of combat, with no ability, no
/// activity, no reward and no breeding behind it.
pub open spec fn newborn(
    mint: Identity,
    owner: Identity,
    traits: [u8; 10],
    parents: [Identity; 2],
    generation: u8,
    metadata_uri: String,
    bump: u8,
) -> BeastAccount {
    BeastAccount {
        mint,
        owner,
        traits,
        rarity_score: rarity(traits@) as u64,
        last_activity: 0,
        activity_count: 0,
        pending_rewards: 0,
        parents,
        generation,
        last_breeding: 0,
        breeding_count: 0,
        abilities: [0u8, 0u8, 0u8, 0u8],
        ability_levels: [0u8, 0u8, 0u8, 0u8],
        combat_stats: CombatStats {
            hp: (traits[3] * 10) as u16,
            energy: MAX_ENERGY,
            wins: 0,
            losses: 0,
            last_combat: 0,
            in_combat: false,
        },
        metadata_uri,
        bump,
    }
}

/// A newborn creature is sound if its reserved trait slots are 0, and it is out of
/// combat.
pub proof fn lemma_newborn_wf(
    mint: Identity,
    owner: Identity,
    traits: [u8; 10],
    parents: [Identity; 2],
    generation: u8,
    metadata_uri: String,
    bump: u8,
)
    requires
        reserved_slots_clear(traits@),
    ensures
        newborn(mint, owner, traits, parents, generation, metadata_uri, bump).wf(),
        !newborn(mint, owner, traits, parents, generation, metadata_uri, bump).combat_stats.in_combat,
{
}

impl BeastAccount {
    /// Makes the [`newborn`] creature with the given identity, controller, traits,
    /// parents, generation and description.
    pub fn new(
        mint: Identity,
        owner: Identity,
        traits: [u8; 10],
        parents: [Identity; 2],
        generation: u8,
        metadata_uri: String,
        bump: u8,
    ) -> (beast: BeastAccount)
        ensures
            beast == newborn(mint, owner, traits, parents, generation, metadata_uri, bump),
    {
        let rarity_score = calculate_rarity(&traits);
        BeastAccount {
            mint,
            owner,
            traits,
            rarity_score,
            last_activity: 0,
            activity_count: 0,
            pending_rewards: 0,
            parents,
            generation,
            last_breeding: 0,
            breeding_count: 0,
            abilities: [0, 0, 0, 0],
            ability_levels: [0, 0, 0, 0],
            combat_stats: CombatStats {
                hp: (traits[3] as u16) * 10,
                energy: 100,
                wins: 0,
                losses: 0,
                last_combat: 0,
                in_combat: false,
            },
            metadata_uri,
            bump,
        }
    }

    /// The most hit points the creature can have: ten per point of vitality.
    pub open spec fn max_hp(&self) -> int {
        self.traits[3] * 10
    }

    /// What holds of every creature that the game made and changed: reserved trait
    /// slots are 0, the rarity score is the sum of the core traits, no ability is
    /// above level 10, and hit points and energy are within their maxima.
    pub open spec fn wf(&self) -> bool {
        &&& reserved_slots_clear(self.traits@)
        &&& self.rarity_score == rarity(self.traits@)
        &&& forall|i: int| 0 <= i < 4 ==> self.ability_levels[i] <= MAX_ABILITY_LEVEL
        &&& self.combat_stats.hp <= self.max_hp()
        &&& self.combat_stats.energy <= MAX_ENERGY
    }

    /// Whether the creature may enter a fight at `current_time`: it is in none, and
    /// its combat cooldown is over.
    pub open spec fn may_enter_combat(&self, current_time: i64, combat_cooldown: i64) -> bool {
        !self.combat_stats.in_combat && can_act(
            current_time,
            self.combat_stats.last_combat,
            combat_cooldown,
        )
    }

    /// Whether the creature may perform an activity at `current_time`.
    pub fn can_perform_activity(&self, current_time: i64, cooldown: i64) -> (ready: bool)
        ensures
            ready == can_act(current_time, self.last_activity, cooldown),
    {
        crate::utils::cooldown::can_perform_activity(self, current_time, cooldown)
    }

    /// Records an activity at `current_time`.
    pub fn update_activity(&mut self, current_time: i64)
        requires
            old(self).activity_count < u32::MAX,
        ensures
            *final(self) == (BeastAccount {
                last_activity: current_time,
                activity_count: (old(self).activity_count + 1) as u32,
                ..*old(self)
            }),
    {
        self.last_activity = current_time;
        self.activity_count += 1;
    }

    /// Whether the creature may breed at `current_time`, as far as its cooldown goes.
    pub fn can_breed(&self, current_time: i64, breeding_cooldown: i64) -> (ready: bool)
        ensures
            ready == can_act(current_time, self.last_breeding, breeding_cooldown),
    {
        crate::utils::cooldown::can_breed(self, current_time, breeding_cooldown)
    }

    /// Records a breeding at `current_time`.
    pub fn update_breeding(&mut self, current_time: i64)
        requires
            old(self).breeding_count < u8::MAX,
        ensures
            *final(self) == (BeastAccount {
                last_breeding: current_time,
                breeding_count: (old(self).breeding_count + 1) as u8,
                ..*old(self)
            }),
    {
        self.last_breeding = current_time;
        self.breeding_count += 1;
    }

    /// Whether the creature may enter a fight at `current_time`.
    pub fn can_enter_combat(&self, current_time: i64, combat_cooldown: i64) -> (ready: bool)
        ensures
            ready == self.may_enter_combat(current_time, combat_cooldown),
    {
        !self.combat_stats.in_combat && cooldown_over(
            current_time,
            self.combat_stats.last_combat,
            combat_cooldown,
        )
    }

    /// Restores full hit points and full energy.
    pub fn reset_combat_stats(&mut self)
        ensures
            *final(self) == (BeastAccount {
                combat_stats: CombatStats {
                    hp: old(self).max_hp() as u16,
                    energy: MAX_ENERGY,
                    ..old(self).combat_stats
                },
                ..*old(self)
            }),
    {
        self.combat_stats.hp = self.get_max_hp();
        self.combat_stats.energy = 100;
    }

    /// Whether an ability is unlocked for the given core trait.
    pub fn has_ability_unlocked(&self, trait_index: u8) -> (unlocked: bool)
        requires
            trait_index < 4,
        ensures
            unlocked == (self.abilities[trait_index as int] > 0),
    {
        self.abilities[trait_index as usize] > 0
    }

    /// The most hit points the creature can have.
    pub fn get_max_hp(&self) -> (hp: u16)
        ensures
            hp == self.max_hp(),
    {
        (self.traits[3] as u16) * 10
    }
}

} // verus!
