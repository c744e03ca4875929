use anchor_lang::prelude::Pubkey;
use zenbeasts::errors::ZenBeastsError;
use zenbeasts::identity::Identity;
use zenbeasts::state::beast_account::{BeastAccount, CombatStats};
use zenbeasts::state::program_config::ProgramConfig;
use zenbeasts::utils::breeding::{
    calculate_breeding_cost, can_breed_count, require_breeding_count_available,
    validate_breeding_requirements,
};

fn breeding_test_beast(generation: u8, breeding_count: u8, last_breeding: i64) -> BeastAccount {
    BeastAccount {
        mint: Identity::new(Pubkey::new_unique().to_bytes()),
        owner: Identity::new(Pubkey::new_unique().to_bytes()),
        traits: [100, 150, 200, 50, 0, 0, 0, 0, 0, 0],
        rarity_score: 500,
        last_activity: 0,
        activity_count: 0,
        pending_rewards: 0,
        parents: [
            Identity::new(Pubkey::default().to_bytes()),
            Identity::new(Pubkey::default().to_bytes()),
        ],
        generation,
        last_breeding,
        breeding_count,
        abilities: [0, 0, 0, 0],
        ability_levels: [0, 0, 0, 0],
        combat_stats: CombatStats {
            hp: 500,
            energy: 100,
            wins: 0,
            losses: 0,
            last_combat: 0,
            in_combat: false,
        },
        metadata_uri: String::from("https://example.com"),
        bump: 255,
    }
}

fn breeding_test_config() -> ProgramConfig {
    ProgramConfig {
        authority: Identity::new(Pubkey::new_unique().to_bytes()),
        zen_mint: Identity::new(Pubkey::new_unique().to_bytes()),
        treasury: Identity::new(Pubkey::new_unique().to_bytes()),
        activity_cooldown: 3600,
        breeding_cooldown: 7200,
        max_breeding_count: 5,
        upgrade_base_cost: 100,
        upgrade_scaling_factor: 10,
        breeding_base_cost: 1000,
        generation_multiplier: 2,
        reward_rate: 10,
        burn_percentage: 10,
        ability_unlock_cost: 100_000_000_000,
        ability_upgrade_cost: 50_000_000_000,
        combat_cooldown: 3600,
        min_combat_wager: 10_000_000_000,
        max_combat_wager: 1_000_000_000_000,
        combat_turn_timeout: 300,
        combat_winner_percentage: 90,
        total_minted: 0,
        rarity_thresholds: [400, 600, 800, 950, 1020],
        bump: 255,
    }
}

#[test]
fn test_can_breed_count_when_under_limit() {
    let beast = breeding_test_beast(0, 3, 0);
    let max_count = 5;

    assert!(can_breed_count(&beast, max_count));
}

#[test]
fn test_cannot_breed_count_when_at_limit() {
    let beast = breeding_test_beast(0, 5, 0);
    let max_count = 5;

    assert!(!can_breed_count(&beast, max_count));
}

#[test]
fn test_can_breed_count_when_at_zero() {
    let beast = breeding_test_beast(0, 0, 0);
    let max_count = 5;

    assert!(can_breed_count(&beast, max_count));
}

#[test]
fn test_calculate_breeding_cost_generation_0() {
    let parent_a = breeding_test_beast(0, 0, 0);
    let parent_b = breeding_test_beast(0, 0, 0);
    let config = breeding_test_config();

    let cost = calculate_breeding_cost(&parent_a, &parent_b, &config).unwrap();
    assert_eq!(cost, 1000);
}

#[test]
fn test_calculate_breeding_cost_generation_1() {
    let parent_a = breeding_test_beast(1, 0, 0);
    let parent_b = breeding_test_beast(0, 0, 0);
    let config = breeding_test_config();

    let cost = calculate_breeding_cost(&parent_a, &parent_b, &config).unwrap();
    assert_eq!(cost, 2000);
}

#[test]
fn test_calculate_breeding_cost_generation_2() {
    let parent_a = breeding_test_beast(2, 0, 0);
    let parent_b = breeding_test_beast(1, 0, 0);
    let config = breeding_test_config();

    let cost = calculate_breeding_cost(&parent_a, &parent_b, &config).unwrap();
    assert_eq!(cost, 4000);
}

#[test]
fn test_calculate_breeding_cost_generation_3() {
    let parent_a = breeding_test_beast(3, 0, 0);
    let parent_b = breeding_test_beast(2, 0, 0);
    let config = breeding_test_config();

    let cost = calculate_breeding_cost(&parent_a, &parent_b, &config).unwrap();
    assert_eq!(cost, 8000);
}

#[test]
fn test_calculate_breeding_cost_uses_max_generation() {
    let parent_a = breeding_test_beast(5, 0, 0);
    let parent_b = breeding_test_beast(2, 0, 0);
    let config = breeding_test_config();

    let cost = calculate_breeding_cost(&parent_a, &parent_b, &config).unwrap();
    assert_eq!(cost, 32000);
}

#[test]
fn test_validate_breeding_requirements_success() {
    let parent_a = breeding_test_beast(0, 2, 1000);
    let parent_b = breeding_test_beast(1, 3, 2000);
    let config = breeding_test_config();
    let current_time = 10000;

    let result = validate_breeding_requirements(&parent_a, &parent_b, current_time, &config);
    assert!(result.is_ok());
}

#[test]
fn test_validate_breeding_requirements_fails_on_parent_a_cooldown() {
    let parent_a = breeding_test_beast(0, 2, 9000);
    let parent_b = breeding_test_beast(1, 3, 1000);
    let config = breeding_test_config();
    let current_time = 10000;

    let result = validate_breeding_requirements(&parent_a, &parent_b, current_time, &config);
    assert!(result.is_err());
}

#[test]
fn test_validate_breeding_requirements_fails_on_parent_b_cooldown() {
    let parent_a = breeding_test_beast(0, 2, 1000);
    let parent_b = breeding_test_beast(1, 3, 9000);
    let config = breeding_test_config();
    let current_time = 10000;

    let result = validate_breeding_requirements(&parent_a, &parent_b, current_time, &config);
    assert!(result.is_err());
}

#[test]
fn test_validate_breeding_requirements_fails_on_parent_a_count() {
    let parent_a = breeding_test_beast(0, 5, 1000);
    let parent_b = breeding_test_beast(1, 3, 1000);
    let config = breeding_test_config();
    let current_time = 10000;

    let result = validate_breeding_requirements(&parent_a, &parent_b, current_time, &config);
    assert!(result.is_err());
}

#[test]
fn test_validate_breeding_requirements_fails_on_parent_b_count() {
    let parent_a = breeding_test_beast(0, 2, 1000);
    let parent_b = breeding_test_beast(1, 5, 1000);
    let config = breeding_test_config();
    let current_time = 10000;

    let result = validate_breeding_requirements(&parent_a, &parent_b, current_time, &config);
    assert!(result.is_err());
}

#[test]
fn test_validate_breeding_requirements_first_breeding() {
    let parent_a = breeding_test_beast(0, 0, 0);
    let parent_b = breeding_test_beast(0, 0, 0);
    let config = breeding_test_config();
    let current_time = 1000;

    let result = validate_breeding_requirements(&parent_a, &parent_b, current_time, &config);
    assert!(result.is_ok());
}

#[test]
fn breeding_requirements_name_the_first_failure() {
    let config = breeding_test_config();
    let rested = breeding_test_beast(0, 2, 1000);
    let tired = breeding_test_beast(0, 2, 9000);
    let spent = breeding_test_beast(0, 5, 1000);
    let tired_and_spent = breeding_test_beast(0, 5, 9000);
    assert_eq!(
        validate_breeding_requirements(&tired, &rested, 10000, &config),
        Err(ZenBeastsError::BreedingCooldownActive)
    );
    assert_eq!(
        validate_breeding_requirements(&spent, &rested, 10000, &config),
        Err(ZenBeastsError::MaxBreedingReached)
    );
    assert_eq!(
        validate_breeding_requirements(&spent, &tired, 10000, &config),
        Err(ZenBeastsError::BreedingCooldownActive)
    );
    assert_eq!(
        validate_breeding_requirements(&rested, &tired_and_spent, 10000, &config),
        Err(ZenBeastsError::BreedingCooldownActive)
    );
    assert_eq!(require_breeding_count_available(&spent, 5), Err(ZenBeastsError::MaxBreedingReached));
    assert_eq!(require_breeding_count_available(&rested, 5), Ok(()));
}

#[test]
fn breeding_cost_is_base_times_multiplier_to_the_generation() {
    let mut config = breeding_test_config();
    config.breeding_base_cost = 7;
    config.generation_multiplier = 3;
    let mut expected: u64 = 7;
    for generation in 0u8..=20 {
        let elder = breeding_test_beast(generation, 0, 0);
        let younger = breeding_test_beast(generation / 2, 0, 0);
        assert_eq!(calculate_breeding_cost(&elder, &younger, &config), Ok(expected));
        assert_eq!(calculate_breeding_cost(&younger, &elder, &config), Ok(expected));
        expected *= 3;
    }
}

#[test]
fn breeding_cost_fails_on_overflow_instead_of_wrapping() {
    let mut config = breeding_test_config();
    config.breeding_base_cost = 1;
    config.generation_multiplier = 2;
    let old = breeding_test_beast(63, 0, 0);
    let ancient = breeding_test_beast(64, 0, 0);
    let first = breeding_test_beast(0, 0, 0);
    assert_eq!(calculate_breeding_cost(&old, &first, &config), Ok(1u64 << 63));
    assert_eq!(
        calculate_breeding_cost(&ancient, &first, &config),
        Err(ZenBeastsError::ArithmeticOverflow)
    );
    config.breeding_base_cost = 2;
    assert_eq!(
        calculate_breeding_cost(&old, &first, &config),
        Err(ZenBeastsError::ArithmeticOverflow)
    );
    config.breeding_base_cost = 0;
    assert_eq!(
        calculate_breeding_cost(&ancient, &first, &config),
        Err(ZenBeastsError::ArithmeticOverflow)
    );
}

#[test]
fn breeding_cost_with_degenerate_multipliers() {
    let mut config = breeding_test_config();
    let first = breeding_test_beast(0, 0, 0);
    let last = breeding_test_beast(255, 0, 0);
    config.generation_multiplier = 0;
    assert_eq!(calculate_breeding_cost(&first, &first, &config), Ok(1000));
    assert_eq!(calculate_breeding_cost(&last, &first, &config), Ok(0));
    config.generation_multiplier = 1;
    assert_eq!(calculate_breeding_cost(&last, &first, &config), Ok(1000));
    config.generation_multiplier = u64::MAX;
    assert_eq!(calculate_breeding_cost(&first, &first, &config), Ok(1000));
}
