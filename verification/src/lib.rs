use vstd::prelude::*;
use crate::identity::Identity;

pub mod errors;
pub mod identity;
pub mod instructions;
pub mod lifecycle;
pub mod state;
pub mod utils;

verus! {

/// A creature came into being, by creation or by breeding.
#[derive(Clone, Copy, Debug, PartialEq, Eq)]
pub struct BeastMinted {
    pub mint: Identity,
    pub owner: Identity,
    pub traits: [u8; 4],
    pub rarity_score: u64,
    pub generation: u8,
    pub timestamp: i64,
}

/// A creature performed an activity.
#[derive(Clone, Copy, Debug, PartialEq, Eq)]
pub struct ActivityPerformed {
    pub beast: Identity,
    pub activity_type: u8,
    pub timestamp: i64,
    pub rewards_earned: u64,
}

/// A creature's rewards were paid out.
#[derive(Clone, Copy, Debug, PartialEq, Eq)]
pub struct RewardsClaimed {
    pub beast: Identity,
    pub recipient: Identity,
    pub amount: u64,
    pub timestamp: i64,
}

/// A core trait went up by one.
#[derive(Clone, Copy, Debug, PartialEq, Eq)]
pub struct TraitUpgraded {
    pub beast: Identity,
    pub trait_index: u8,
    pub old_value: u8,
    pub new_value: u8,
    pub cost_paid: u64,
    pub new_rarity: u64,
}

/// Two creatures had a child.
#[derive(Clone, Copy, Debug, PartialEq, Eq)]
pub struct BeastBred {
    pub parent1: Identity,
    pub parent2: Identity,
    pub offspring: Identity,
    pub generation: u8,
    pub cost_paid: u64,
}

/// A creature changed hands.
#[derive(Clone, Copy, Debug, PartialEq, Eq)]
pub struct BeastTransferred {
    pub beast: Identity,
    pub from: Identity,
    pub to: Identity,
    pub timestamp: i64,
}

/// One setting was changed.
#[derive(Clone, Debug, PartialEq, Eq)]
pub struct ConfigurationUpdated {
    pub parameter: String,
    pub old_value: u64,
    pub new_value: u64,
    pub updated_by: Identity,
}

impl View for ConfigurationUpdated {
    type V = (Seq<char>, u64, u64, Identity);

    /// The setting's name, its value before and after, and who changed it.
    open spec fn view(&self) -> (Seq<char>, u64, u64, Identity) {
        (self.parameter@, self.old_value, self.new_value, self.updated_by)
    }
}

/// An ability was unlocked.
#[derive(Clone, Copy, Debug, PartialEq, Eq)]
pub struct AbilityUnlocked {
    pub beast: Identity,
    pub trait_index: u8,
    pub ability_id: u8,
    pub cost_paid: u64,
    pub timestamp: i64,
}

/// An ability went up by one level.
#[derive(Clone, Copy, Debug, PartialEq, Eq)]
pub struct AbilityUpgraded {
    pub beast: Identity,
    pub trait_index: u8,
    pub old_level: u8,
    pub new_level: u8,
    pub cost_paid: u64,
    pub timestamp: i64,
}

/// A fight was opened.
#[derive(Clone, Copy, Debug, PartialEq, Eq)]
pub struct CombatInitiated {
    pub session_id: u64,
    pub challenger: Identity,
    pub opponent: Identity,
    pub wager_amount: u64,
    pub timestamp: i64,
}

/// A turn of a fight was taken.
#[derive(Clone, Copy, Debug, PartialEq, Eq)]
pub struct CombatTurnExecuted {
    pub session_id: u64,
    pub turn_count: u8,
    pub executor: Identity,
    pub ability_used: u8,
    pub damage_dealt: u16,
    pub timestamp: i64,
}

/// A fight was settled.
#[derive(Clone, Copy, Debug, PartialEq, Eq)]
pub struct CombatResolved {
    pub session_id: u64,
    pub winner: Option<Identity>,
    pub total_pot: u64,
    pub winner_payout: u64,
    pub burned_amount: u64,
    pub timestamp: i64,
}

} // verus!
