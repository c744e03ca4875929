use anchor_lang::prelude::Pubkey;
use zenbeasts::errors::ZenBeastsError;
use zenbeasts::identity::Identity;
use zenbeasts::state::beast_account::{BeastAccount, CombatStats};
use zenbeasts::state::program_config::ProgramConfig;
use zenbeasts::utils::combat::{
    calculate_ability_energy_cost, calculate_turn_damage, damage_from_digest,
    validate_combat_requirements, Ability, ABILITY_AGILITY, ABILITY_STRENGTH, ABILITY_VITALITY,
    ABILITY_WISDOM,
};

fn combat_test_beast(
    abilities: [u8; 4],
    ability_levels: [u8; 4],
    in_combat: bool,
    last_combat: i64,
) -> BeastAccount {
    BeastAccount {
        mint: Identity::new(Pubkey::new_unique().to_bytes()),
        owner: Identity::new(Pubkey::new_unique().to_bytes()),
        traits: [100, 150, 200, 50, 0, 0, 0, 0, 0, 0],
        rarity_score: 500,
        last_activity: 0,
        activity_count: 0,
        pending_rewards: 0,
        parents: [
            Identity::new(Pubkey::default().to_bytes()),
            Identity::new(Pubkey::default().to_bytes()),
        ],
        generation: 0,
        last_breeding: 0,
        breeding_count: 0,
        metadata_uri: String::from("https://example.com"),
        abilities,
        ability_levels,
        combat_stats: CombatStats {
            hp: 500,
            energy: 100,
            wins: 0,
            losses: 0,
            last_combat,
            in_combat,
        },
        bump: 255,
    }
}

fn combat_test_config() -> ProgramConfig {
    ProgramConfig {
        authority: Identity::new(Pubkey::new_unique().to_bytes()),
        zen_mint: Identity::new(Pubkey::new_unique().to_bytes()),
        treasury: Identity::new(Pubkey::new_unique().to_bytes()),
        activity_cooldown: 3600,
        breeding_cooldown: 7200,
        max_breeding_count: 5,
        upgrade_base_cost: 100,
        upgrade_scaling_factor: 10,
        breeding_base_cost: 1000,
        generation_multiplier: 2,
        reward_rate: 10,
        burn_percentage: 10,
        ability_unlock_cost: 100_000_000_000,
        ability_upgrade_cost: 50_000_000_000,
        combat_cooldown: 3600,
        min_combat_wager: 10_000_000_000,
        max_combat_wager: 1_000_000_000_000,
        combat_turn_timeout: 300,
        combat_winner_percentage: 90,
        total_minted: 0,
        rarity_thresholds: [400, 600, 800, 950, 1020],
        bump: 255,
    }
}

#[test]
fn test_calculate_turn_damage_strength() {
    let damage = calculate_turn_damage(12345, 1, 100, 5, ABILITY_STRENGTH).unwrap();
    assert!(damage >= 800 && damage <= 1200);
}

#[test]
fn test_calculate_turn_damage_agility() {
    let damage = calculate_turn_damage(12345, 1, 100, 5, ABILITY_AGILITY).unwrap();
    assert!(damage >= 600 && damage <= 900);
}

#[test]
fn test_calculate_turn_damage_wisdom() {
    let damage = calculate_turn_damage(12345, 1, 100, 5, ABILITY_WISDOM).unwrap();
    assert!(damage >= 400 && damage <= 600);
}

#[test]
fn test_calculate_turn_damage_vitality() {
    let healing = calculate_turn_damage(12345, 1, 100, 5, ABILITY_VITALITY).unwrap();
    assert!(healing >= 600 && healing <= 900);
}

#[test]
fn test_calculate_turn_damage_deterministic() {
    let damage1 = calculate_turn_damage(12345, 1, 100, 5, ABILITY_STRENGTH).unwrap();
    let damage2 = calculate_turn_damage(12345, 1, 100, 5, ABILITY_STRENGTH).unwrap();
    assert_eq!(damage1, damage2);
}

#[test]
fn test_calculate_turn_damage_invalid_ability() {
    let result = calculate_turn_damage(12345, 1, 100, 5, 99);
    assert!(result.is_err());
}

#[test]
fn test_validate_combat_requirements_success() {
    let beast = combat_test_beast([1, 0, 0, 0], [1, 0, 0, 0], false, 1000);
    let config = combat_test_config();
    let current_time = 5000;

    let result = validate_combat_requirements(&beast, current_time, &config);
    assert!(result.is_ok());
}

#[test]
fn test_validate_combat_requirements_in_combat() {
    let beast = combat_test_beast([1, 0, 0, 0], [1, 0, 0, 0], true, 1000);
    let config = combat_test_config();
    let current_time = 5000;

    let result = validate_combat_requirements(&beast, current_time, &config);
    assert!(result.is_err());
}

#[test]
fn test_validate_combat_requirements_cooldown() {
    let beast = combat_test_beast([1, 0, 0, 0], [1, 0, 0, 0], false, 4000);
    let config = combat_test_config();
    let current_time = 5000;

    let result = validate_combat_requirements(&beast, current_time, &config);
    assert!(result.is_err());
}

#[test]
fn test_validate_combat_requirements_no_abilities() {
    let beast = combat_test_beast([0, 0, 0, 0], [0, 0, 0, 0], false, 1000);
    let config = combat_test_config();
    let current_time = 5000;

    let result = validate_combat_requirements(&beast, current_time, &config);
    assert!(result.is_err());
}

#[test]
fn test_calculate_ability_energy_cost_level_1() {
    let cost = calculate_ability_energy_cost(ABILITY_STRENGTH, 1);
    assert_eq!(cost, 22);
}

#[test]
fn test_calculate_ability_energy_cost_level_5() {
    let cost = calculate_ability_energy_cost(ABILITY_STRENGTH, 5);
    assert_eq!(cost, 30);
}

#[test]
fn test_calculate_ability_energy_cost_capped() {
    let cost = calculate_ability_energy_cost(ABILITY_STRENGTH, 50);
    assert_eq!(cost, 100);
}

#[test]
fn turn_damage_has_exact_values() {
    assert_eq!(calculate_turn_damage(12345, 1, 100, 5, ABILITY_STRENGTH), Ok(1160));
    assert_eq!(calculate_turn_damage(12345, 1, 100, 5, ABILITY_AGILITY), Ok(780));
    assert_eq!(calculate_turn_damage(12345, 1, 100, 5, ABILITY_WISDOM), Ok(595));
    assert_eq!(calculate_turn_damage(12345, 1, 100, 5, ABILITY_VITALITY), Ok(712));
    assert_eq!(calculate_turn_damage(7, 0, 255, 255, ABILITY_STRENGTH), Ok(65535));
    assert_eq!(calculate_turn_damage(12345, 1, 0, 5, ABILITY_STRENGTH), Ok(0));
    assert_eq!(calculate_turn_damage(12345, 1, 100, 0, ABILITY_STRENGTH), Ok(0));
}

#[test]
fn turn_damage_rejects_every_other_ability_type() {
    for ability_type in 4u8..=255 {
        assert_eq!(
            calculate_turn_damage(12345, 1, 100, 5, ability_type),
            Err(ZenBeastsError::InvalidAbilityId)
        );
        assert_eq!(
            damage_from_digest(&[0u8; 32], 100, 5, ability_type),
            Err(ZenBeastsError::InvalidAbilityId)
        );
    }
}

#[test]
fn damage_follows_the_first_digest_byte() {
    let mut digest = [0u8; 32];
    assert_eq!(damage_from_digest(&digest, 100, 5, ABILITY_STRENGTH), Ok(800));
    assert_eq!(damage_from_digest(&digest, 100, 5, ABILITY_AGILITY), Ok(600));
    assert_eq!(damage_from_digest(&digest, 100, 5, ABILITY_WISDOM), Ok(400));
    assert_eq!(damage_from_digest(&digest, 100, 5, ABILITY_VITALITY), Ok(600));
    digest[0] = 40;
    assert_eq!(damage_from_digest(&digest, 100, 5, ABILITY_STRENGTH), Ok(1200));
    assert_eq!(damage_from_digest(&digest, 100, 5, ABILITY_AGILITY), Ok(900));
    assert_eq!(damage_from_digest(&digest, 100, 5, ABILITY_WISDOM), Ok(600));
    digest[0] = 41;
    assert_eq!(damage_from_digest(&digest, 100, 5, ABILITY_STRENGTH), Ok(800));
    digest[0] = 255;
    assert_eq!(damage_from_digest(&digest, 100, 5, ABILITY_STRENGTH), Ok(890));
    digest[0] = 20;
    assert_eq!(damage_from_digest(&digest, 3, 1, ABILITY_AGILITY), Ok(4));
    assert_eq!(damage_from_digest(&digest, 255, 255, ABILITY_STRENGTH), Ok(65535));
    assert_eq!(damage_from_digest(&digest, 255, 255, ABILITY_WISDOM), Ok(65025));
    digest[0] = 1;
    assert_eq!(damage_from_digest(&digest, 255, 255, ABILITY_WISDOM), Ok(52670));
}

#[test]
fn energy_cost_is_twenty_plus_two_per_level() {
    for level in 0u8..=255 {
        let expected = core::cmp::min(100u32, 20 + 2 * level as u32) as u8;
        for ability_type in [0u8, 1, 2, 3, 99] {
            assert_eq!(calculate_ability_energy_cost(ability_type, level), expected);
        }
    }
    assert_eq!(calculate_ability_energy_cost(ABILITY_WISDOM, 39), 98);
    assert_eq!(calculate_ability_energy_cost(ABILITY_WISDOM, 40), 100);
    assert_eq!(calculate_ability_energy_cost(ABILITY_WISDOM, 0), 20);
}

#[test]
fn combat_requirements_name_the_first_failure() {
    let config = combat_test_config();
    let ready = combat_test_beast([0, 0, 3, 0], [0, 0, 1, 0], false, 1000);
    assert_eq!(validate_combat_requirements(&ready, 4600, &config), Ok(()));
    assert_eq!(
        validate_combat_requirements(&ready, 4599, &config),
        Err(ZenBeastsError::CombatCooldownActive)
    );
    let fighting = combat_test_beast([0, 0, 0, 0], [0, 0, 0, 0], true, 4000);
    assert_eq!(
        validate_combat_requirements(&fighting, 5000, &config),
        Err(ZenBeastsError::BeastInCombat)
    );
    let resting = combat_test_beast([0, 0, 0, 0], [0, 0, 0, 0], false, 4000);
    assert_eq!(
        validate_combat_requirements(&resting, 5000, &config),
        Err(ZenBeastsError::CombatCooldownActive)
    );
    let unskilled = combat_test_beast([0, 0, 0, 0], [0, 0, 0, 0], false, 1000);
    assert_eq!(
        validate_combat_requirements(&unskilled, 5000, &config),
        Err(ZenBeastsError::AbilityNotUnlocked)
    );
}

#[test]
fn ability_types_are_the_four_core_traits() {
    assert_eq!(Ability::from_type(0), Some(Ability::Strength));
    assert_eq!(Ability::from_type(1), Some(Ability::Agility));
    assert_eq!(Ability::from_type(2), Some(Ability::Wisdom));
    assert_eq!(Ability::from_type(3), Some(Ability::Vitality));
    for other in 4u8..=255 {
        assert_eq!(Ability::from_type(other), None);
    }
}
