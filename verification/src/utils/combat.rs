use vstd::prelude::*;
use crate::errors::ZenBeastsError;
use crate::state::beast_account::BeastAccount;
use crate::state::program_config::ProgramConfig;
use crate::utils::cooldown::{can_act, cooldown_over};
use crate::utils::randomness::{keccak256, keccak_hash, push_u64_le, u64_le_bytes};

verus! {

/// Physical damage, from strength.
pub const ABILITY_STRENGTH: u8 = 0;

/// Speed and dodge damage, from agility.
pub const ABILITY_AGILITY: u8 = 1;

/// Debuff damage, from wisdom.
pub const ABILITY_WISDOM: u8 = 2;

/// Healing of the creature itself, from vitality.
pub const ABILITY_VITALITY: u8 = 3;

/// The bytes that are hashed for one turn: the fight's seed, the turn's number and
/// the ability's type.
pub open spec fn turn_input(combat_seed: u64, turn_count: u8, ability_type: u8) -> Seq<u8> {
    u64_le_bytes(combat_seed) + seq![turn_count] + seq![ability_type]
}

/// The factor, in hundredths, that a digest byte puts on a turn's amount: 80 to 120.
pub open spec fn random_factor(byte: u8) -> int {
    byte % 41 + 80
}

/// The four kinds of ability, one per core trait.
#[derive(Clone, Copy, Debug, PartialEq, Eq, Structural)]
pub enum Ability {
    Strength,
    Agility,
    Wisdom,
    Vitality,
}

/// The ability that a type number stands for, if it stands for one.
pub open spec fn ability_of(ability_type: u8) -> Option<Ability> {
    if ability_type == ABILITY_STRENGTH {
        Some(Ability::Strength)
    } else if ability_type == ABILITY_AGILITY {
        Some(Ability::Agility)
    } else if ability_type == ABILITY_WISDOM {
        Some(Ability::Wisdom)
    } else if ability_type == ABILITY_VITALITY {
        Some(Ability::Vitality)
    } else {
        None
    }
}

/// The amount of an ability before the random factor, from the value of its trait
/// and its level: twice their product for strength, one and a half times for
/// agility and vitality, rounded down, and once for wisdom.
pub open spec fn ability_amount(ability: Ability, trait_value: u8, ability_level: u8) -> int {
    match ability {
        Ability::Strength => trait_value * ability_level * 2,
        Ability::Agility => trait_value * ability_level * 3 / 2,
        Ability::Wisdom => trait_value * ability_level,
        Ability::Vitality => trait_value * ability_level * 3 / 2,
    }
}

/// The amount before the random factor for a type number: that of its ability,
/// and 0 for a number that stands for none.
pub open spec fn base_amount(ability_type: u8, trait_value: u8, ability_level: u8) -> int {
    match ability_of(ability_type) {
        Some(ability) => ability_amount(ability, trait_value, ability_level),
        None => 0,
    }
}

/// The damage or healing of a turn, given the digest byte its factor is read from:
/// the base amount times the factor, in hundredths, and 65535 at most.
pub open spec fn turn_amount(byte: u8, trait_value: u8, ability_level: u8, ability_type: u8) -> int {
    if base_amount(ability_type, trait_value, ability_level) * random_factor(byte) / 100 > u16::MAX {
        u16::MAX as int
    } else {
        base_amount(ability_type, trait_value, ability_level) * random_factor(byte) / 100
    }
}

/// The outcome of a turn, given the digest its factor is read from: an error for
/// an ability type other than the four, else the amount.
pub open spec fn turn_damage(
    digest: Seq<u8>,
    trait_value: u8,
    ability_level: u8,
    ability_type: u8,
) -> Result<u16, ZenBeastsError> {
    match ability_of(ability_type) {
        None => Err(ZenBeastsError::InvalidAbilityId),
        Some(_) => Ok(turn_amount(digest[0], trait_value, ability_level, ability_type) as u16),
    }
}

/// The outcome of a turn as a function of what the turn is given: the seed, the
/// turn's number, the acting creature's trait and level, and the ability's type.
/// Nothing else enters, so whoever knows these can recompute the turn.
pub open spec fn turn_outcome(
    combat_seed: u64,
    turn_count: u8,
    trait_value: u8,
    ability_level: u8,
    ability_type: u8,
) -> Result<u16, ZenBeastsError> {
    turn_damage(
        keccak256(turn_input(combat_seed, turn_count, ability_type)),
        trait_value,
        ability_level,
        ability_type,
    )
}

/// Energy spent by one use of an ability at the given level: twenty plus two per
/// level, never more than one hundred.
pub open spec fn ability_energy_cost(ability_level: u8) -> int {
    if 20 + 2 * ability_level <= 100 {
        20 + 2 * ability_level
    } else {
        100
    }
}

/// Whether a creature may be taken into a fight at `current_time`, and if not, why:
/// it is in a fight, its combat cooldown runs, or it has no ability.
pub open spec fn combat_requirements(
    beast: &BeastAccount,
    current_time: i64,
    config: &ProgramConfig,
) -> Result<(), ZenBeastsError> {
    if beast.combat_stats.in_combat {
        Err(ZenBeastsError::BeastInCombat)
    } else if !can_act(current_time, beast.combat_stats.last_combat, config.combat_cooldown) {
        Err(ZenBeastsError::CombatCooldownActive)
    } else if forall|i: int| 0 <= i < 4 ==> beast.abilities[i] == 0 {
        Err(ZenBeastsError::AbilityNotUnlocked)
    } else {
        Ok(())
    }
}

/// The base amount is at most three times 255 squared, over two.
pub proof fn lemma_base_amount_bounded(ability_type: u8, trait_value: u8, ability_level: u8)
    ensures
        0 <= trait_value * ability_level <= 65025,
        0 <= base_amount(ability_type, trait_value, ability_level) <= 130050,
{
    assert(0 <= trait_value * ability_level <= 65025) by (nonlinear_arith)
        requires
            0 <= trait_value <= 255,
            0 <= ability_level <= 255,
    ;
}

/// With a creature's trait and level, a turn's amount lies between eight and
/// twelve tenths of the base amount, unless the ceiling of 65535 cuts it.
pub proof fn lemma_turn_amount_range(byte: u8, trait_value: u8, ability_level: u8, ability_type: u8)
    ensures
        0 <= turn_amount(byte, trait_value, ability_level, ability_type) <= u16::MAX,
        turn_amount(byte, trait_value, ability_level, ability_type) <= base_amount(
            ability_type,
            trait_value,
            ability_level,
        ) * 120 / 100,
        turn_amount(byte, trait_value, ability_level, ability_type) < u16::MAX ==> turn_amount(
            byte,
            trait_value,
            ability_level,
            ability_type,
        ) >= base_amount(ability_type, trait_value, ability_level) * 80 / 100,
{
    lemma_base_amount_bounded(ability_type, trait_value, ability_level);
    let base = base_amount(ability_type, trait_value, ability_level);
    let factor = random_factor(byte);
    assert(base * 80 <= base * factor <= base * 120) by (nonlinear_arith)
        requires
            0 <= base,
            80 <= factor <= 120,
    ;
}

/// An ability type other than the four always fails, and one of the four never
/// does, whatever the seed, the turn, the trait and the level.
pub proof fn lemma_turn_outcome_fails_on_unknown_ability(
    combat_seed: u64,
    turn_count: u8,
    trait_value: u8,
    ability_level: u8,
    ability_type: u8,
)
    ensures
        ability_type > ABILITY_VITALITY ==> turn_outcome(
            combat_seed,
            turn_count,
            trait_value,
            ability_level,
            ability_type,
        ) == Err::<u16, ZenBeastsError>(ZenBeastsError::InvalidAbilityId),
        ability_type <= ABILITY_VITALITY ==> turn_outcome(
            combat_seed,
            turn_count,
            trait_value,
            ability_level,
            ability_type,
        ) is Ok,
{
}

impl Ability {
    /// The ability that a type number stands for, if it stands for one.
    pub fn from_type(ability_type: u8) -> (ability: Option<Ability>)
        ensures
            ability == ability_of(ability_type),
    {
        if ability_type == ABILITY_STRENGTH {
            Some(Ability::Strength)
        } else if ability_type == ABILITY_AGILITY {
            Some(Ability::Agility)
        } else if ability_type == ABILITY_WISDOM {
            Some(Ability::Wisdom)
        } else if ability_type == ABILITY_VITALITY {
            Some(Ability::Vitality)
        } else {
            None
        }
    }
}

/// The outcome of a turn, given the digest its factor is read from.
pub fn damage_from_digest(
    digest: &[u8; 32],
    attacker_trait: u8,
    attacker_ability_level: u8,
    ability_type: u8,
) -> (r: Result<u16, ZenBeastsError>)
    ensures
        r == turn_damage(digest@, attacker_trait, attacker_ability_level, ability_type),
{
    let random_factor: u32 = (digest[0] % 41) as u32 + 80;
    proof {
        lemma_base_amount_bounded(ability_type, attacker_trait, attacker_ability_level);
    }
    let product: u32 = attacker_trait as u32 * attacker_ability_level as u32;
    let base_damage: u32 = match Ability::from_type(ability_type) {
        Some(Ability::Strength) => product * 2,
        Some(Ability::Agility) => product * 3 / 2,
        Some(Ability::Wisdom) => product,
        Some(Ability::Vitality) => product * 3 / 2,
        None => {
            return Err(ZenBeastsError::InvalidAbilityId);
        },
    };
    assert(base_damage * random_factor <= 130050 * 120) by (nonlinear_arith)
        requires
            0 <= base_damage <= 130050,
            0 <= random_factor <= 120,
    ;
    let final_damage: u32 = base_damage * random_factor / 100;
    if final_damage > 0xffff {
        Ok(u16::MAX)
    } else {
        Ok(final_damage as u16)
    }
}

/// The damage or healing of one turn. Its random factor is drawn from the hash of
/// the fight's seed, the turn's number and the ability's type, so the same
/// arguments always give the same outcome.
pub fn calculate_turn_damage(
    combat_seed: u64,
    turn_count: u8,
    attacker_trait: u8,
    attacker_ability_level: u8,
    ability_type: u8,
) -> (r: Result<u16, ZenBeastsError>)
    ensures
        r == turn_outcome(
            combat_seed,
            turn_count,
            attacker_trait,
            attacker_ability_level,
            ability_type,
        ),
        ability_type > ABILITY_VITALITY ==> r == Err::<u16, ZenBeastsError>(
            ZenBeastsError::InvalidAbilityId,
        ),
{
    let mut input: Vec<u8> = Vec::new();
    push_u64_le(&mut input, combat_seed);
    input.push(turn_count);
    input.push(ability_type);
    assert(input@ =~= turn_input(combat_seed, turn_count, ability_type));
    let digest = keccak_hash(input.as_slice());
    damage_from_digest(&digest, attacker_trait, attacker_ability_level, ability_type)
}

/// Checks that a creature may be taken into a fight at `current_time`.
pub fn validate_combat_requirements(
    beast: &BeastAccount,
    current_time: i64,
    config: &ProgramConfig,
) -> (r: Result<(), ZenBeastsError>)
    ensures
        r == combat_requirements(beast, current_time, config),
{
    if beast.combat_stats.in_combat {
        return Err(ZenBeastsError::BeastInCombat);
    }
    if !cooldown_over(current_time, beast.combat_stats.last_combat, config.combat_cooldown) {
        return Err(ZenBeastsError::CombatCooldownActive);
    }
    let mut any_unlocked = false;
    let mut i: usize = 0;
    while i < 4
        invariant
            i <= 4,
            any_unlocked == exists|k: int| 0 <= k < i && beast.abilities[k] > 0,
        decreases 4 - i,
    {
        if beast.abilities[i] > 0 {
            any_unlocked = true;
        }
        i += 1;
    }
    if !any_unlocked {
        return Err(ZenBeastsError::AbilityNotUnlocked);
    }
    Ok(())
}

/// Energy that one use of an ability costs. The ability's type does not enter.
pub fn calculate_ability_energy_cost(ability_type: u8, ability_level: u8) -> (cost: u8)
    ensures
        cost == ability_energy_cost(ability_level),
        20 <= cost <= 100,
{
    if ability_level >= 40 {
        100
    } else {
        20 + 2 * ability_level
    }
}

} // verus!
