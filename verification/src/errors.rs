use vstd::prelude::*;

verus! {

/// Every way an operation of the game can be refused.
#[derive(Clone, Copy, Debug, PartialEq, Eq, Structural)]
pub enum ZenBeastsError {
    NameTooLong,
    UriTooLong,
    InvalidTrait,
    ArithmeticOverflow,
    ArithmeticUnderflow,
    CooldownActive,
    NotOwner,
    InsufficientFunds,
    InvalidActivityType,
    InvalidTraitIndex,
    SameTraitValue,
    InvalidBurnPercentage,
    TokenAccountMismatch,
    NoRewardsToClaim,
    InvalidParents,
    TraitMaxReached,
    InvalidPDA,
    BreedingCooldownActive,
    MaxBreedingReached,
    InsufficientTreasuryBalance,
    Unauthorized,
    AlreadyInitialized,
    InvalidConfiguration,
    InvalidGeneration,
    OwnerUnchanged,
    InvalidNFTOwnership,
    AbilityNotUnlocked,
    AbilityAlreadyUnlocked,
    AbilityMaxLevel,
    InvalidAbilityId,
    InvalidTraitForAbility,
    BeastInCombat,
    CombatCooldownActive,
    InvalidCombatSession,
    CombatAlreadyFinished,
    NotCombatParticipant,
    InsufficientWager,
    CombatTurnTimeout,
    InvalidCombatTurn,
    SelfCombatNotAllowed,
    OpponentNotAvailable,
}

} // verus!
