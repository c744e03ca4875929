use anchor_lang::prelude::Pubkey;
use zenbeasts::identity::Identity;
use zenbeasts::utils::traits::{
    breed_from_digest, breed_traits, calculate_rarity, decimal_text, generate_metadata_uri,
    generate_traits, get_rarity_tier, rarity_tier, traits_from_digest, RarityTier, CORE_TRAITS,
    TRAIT_LAYERS,
};

#[test]
fn test_generate_traits_in_range() {
    let owner = Identity::new(Pubkey::new_unique().to_bytes());
    let clock_bytes = [1u8; 8];
    let (traits, score) = generate_traits(12345, &owner, &clock_bytes);

    for i in CORE_TRAITS..TRAIT_LAYERS {
        assert_eq!(traits[i], 0);
    }

    let expected_rarity: u64 =
        traits[0] as u64 + traits[1] as u64 + traits[2] as u64 + traits[3] as u64;
    assert_eq!(score, expected_rarity);
}

#[test]
fn test_calculate_rarity_matches_sum() {
    let traits = [100, 150, 200, 50, 0, 0, 0, 0, 0, 0];
    let score = calculate_rarity(&traits);
    let expected: u64 = 100 + 150 + 200 + 50;
    assert_eq!(score, expected);
}

#[test]
fn test_breed_traits_within_bounds() {
    let parent_a = [100, 150, 200, 50, 0, 0, 0, 0, 0, 0];
    let parent_b = [120, 130, 180, 70, 0, 0, 0, 0, 0, 0];
    let (child, rarity) = breed_traits(12345, &parent_a, &parent_b);

    for i in 0..CORE_TRAITS {
        assert!(child[i] <= 255);

        let avg = ((parent_a[i] as u16 + parent_b[i] as u16) / 2) as i16;
        let diff = (child[i] as i16 - avg).abs();
        assert!(diff <= 20, "Trait {} difference {} exceeds 20", i, diff);
    }

    for i in CORE_TRAITS..TRAIT_LAYERS {
        assert_eq!(child[i], 0);
    }

    let expected_rarity: u64 =
        child[0] as u64 + child[1] as u64 + child[2] as u64 + child[3] as u64;
    assert_eq!(rarity, expected_rarity);
}

#[test]
fn test_get_rarity_tier() {
    let thresholds = [400, 600, 800, 950, 1020];

    assert_eq!(get_rarity_tier(300, &thresholds), "Common");
    assert_eq!(get_rarity_tier(500, &thresholds), "Common");
    assert_eq!(get_rarity_tier(700, &thresholds), "Uncommon");
    assert_eq!(get_rarity_tier(900, &thresholds), "Rare");
    assert_eq!(get_rarity_tier(1000, &thresholds), "Epic");
}

#[test]
fn rarity_is_the_sum_of_the_core_traits_only() {
    assert_eq!(calculate_rarity(&[255, 255, 255, 255, 0, 0, 0, 0, 0, 0]), 1020);
    assert_eq!(calculate_rarity(&[0; 10]), 0);
    assert_eq!(calculate_rarity(&[1, 2, 3, 4, 255, 255, 255, 255, 255, 255]), 10);
    assert_eq!(calculate_rarity(&[255; 10]), 1020);
}

#[test]
fn rarity_tier_thresholds_are_inclusive() {
    let thresholds = [400, 600, 800, 950, 1020];
    assert_eq!(rarity_tier(0, &thresholds), RarityTier::Common);
    assert_eq!(rarity_tier(300, &thresholds), RarityTier::Common);
    assert_eq!(rarity_tier(400, &thresholds), RarityTier::Common);
    assert_eq!(rarity_tier(599, &thresholds), RarityTier::Common);
    assert_eq!(rarity_tier(600, &thresholds), RarityTier::Uncommon);
    assert_eq!(rarity_tier(799, &thresholds), RarityTier::Uncommon);
    assert_eq!(rarity_tier(800, &thresholds), RarityTier::Rare);
    assert_eq!(rarity_tier(949, &thresholds), RarityTier::Rare);
    assert_eq!(rarity_tier(950, &thresholds), RarityTier::Epic);
    assert_eq!(rarity_tier(1019, &thresholds), RarityTier::Epic);
    assert_eq!(rarity_tier(1020, &thresholds), RarityTier::Legendary);
    assert_eq!(rarity_tier(u64::MAX, &thresholds), RarityTier::Legendary);
    assert_eq!(get_rarity_tier(300, &thresholds), "Common");
    assert_eq!(get_rarity_tier(600, &thresholds), "Uncommon");
    assert_eq!(get_rarity_tier(800, &thresholds), "Rare");
    assert_eq!(get_rarity_tier(950, &thresholds), "Epic");
    assert_eq!(get_rarity_tier(1020, &thresholds), "Legendary");
    assert_eq!(RarityTier::Common.label(), "Common");
    assert_eq!(RarityTier::Legendary.label(), "Legendary");
}

#[test]
fn rarity_tier_ignores_the_first_threshold() {
    assert_eq!(rarity_tier(0, &[900, 10, 20, 30, 40]), RarityTier::Common);
    assert_eq!(rarity_tier(9, &[0, 10, 20, 30, 40]), RarityTier::Common);
    assert_eq!(rarity_tier(10, &[900, 10, 20, 30, 40]), RarityTier::Uncommon);
    assert_eq!(rarity_tier(0, &[0, 0, 0, 0, 0]), RarityTier::Legendary);
}

#[test]
fn generated_traits_are_the_first_four_hash_bytes() {
    let mut bytes = [0u8; 32];
    for i in 0..32 {
        bytes[i] = i as u8 + 1;
    }
    let owner = Identity::new(bytes);
    let (traits, score) = generate_traits(12345, &owner, &[1u8; 8]);
    assert_eq!(traits, [196, 198, 43, 175, 0, 0, 0, 0, 0, 0]);
    assert_eq!(score, 612);
    let again = generate_traits(12345, &owner, &[1u8; 8]);
    assert_eq!(again, (traits, score));
    let other = generate_traits(12346, &owner, &[1u8; 8]);
    assert_ne!(other.0, traits);
}

#[test]
fn traits_from_digest_takes_four_bytes() {
    let mut digest = [9u8; 32];
    digest[0] = 1;
    digest[1] = 2;
    digest[2] = 3;
    digest[3] = 255;
    assert_eq!(traits_from_digest(&digest), ([1, 2, 3, 255, 0, 0, 0, 0, 0, 0], 261));
}

#[test]
fn bred_traits_have_exact_values() {
    let parent_a = [100, 150, 200, 50, 0, 0, 0, 0, 0, 0];
    let parent_b = [120, 130, 180, 70, 0, 0, 0, 0, 0, 0];
    let (child, rarity) = breed_traits(12345, &parent_a, &parent_b);
    assert_eq!(child, [107, 156, 199, 45, 0, 0, 0, 0, 0, 0]);
    assert_eq!(rarity, 507);
}

#[test]
fn bred_traits_follow_the_digest() {
    let parent_a = [100, 151, 255, 0, 7, 7, 7, 7, 7, 7];
    let parent_b = [120, 130, 255, 0, 9, 9, 9, 9, 9, 9];
    let mut digest = [0u8; 32];
    digest[0] = 0;
    digest[1] = 40;
    digest[2] = 81;
    digest[3] = 41;
    let (child, rarity) = breed_from_digest(&digest, &parent_a, &parent_b);
    assert_eq!(child, [90, 160, 255, 0, 0, 0, 0, 0, 0, 0]);
    assert_eq!(rarity, 505);
    digest[0] = 20;
    digest[1] = 255;
    digest[2] = 0;
    digest[3] = 40;
    let (child, rarity) = breed_from_digest(&digest, &parent_a, &parent_b);
    assert_eq!(child, [110, 129, 235, 20, 0, 0, 0, 0, 0, 0]);
    assert_eq!(rarity, 494);
}

#[test]
fn bred_traits_stay_near_the_parents_for_every_byte() {
    let parent_a = [0, 255, 13, 200, 0, 0, 0, 0, 0, 0];
    let parent_b = [0, 255, 240, 201, 0, 0, 0, 0, 0, 0];
    for byte in 0u8..=255 {
        let digest = [byte; 32];
        let (child, rarity) = breed_from_digest(&digest, &parent_a, &parent_b);
        for i in 0..4 {
            let avg = (parent_a[i] as i32 + parent_b[i] as i32) / 2;
            assert!((child[i] as i32 - avg).abs() <= 20);
        }
        for i in 4..10 {
            assert_eq!(child[i], 0);
        }
        assert_eq!(rarity, child.iter().map(|t| *t as u64).sum::<u64>());
    }
}

#[test]
fn decimal_text_writes_numbers() {
    assert_eq!(decimal_text(0), "0");
    assert_eq!(decimal_text(7), "7");
    assert_eq!(decimal_text(10), "10");
    assert_eq!(decimal_text(1234567890), "1234567890");
    assert_eq!(decimal_text(u64::MAX), "18446744073709551615");
}

#[test]
fn metadata_uri_names_count_and_creature() {
    assert_eq!(
        generate_metadata_uri(&Identity::zero(), 7),
        "https://arweave.net/zenbeasts/7/11111111111111111111111111111111"
    );
    let mut bytes = [0u8; 32];
    for i in 0..32 {
        bytes[i] = i as u8 + 1;
    }
    assert_eq!(
        generate_metadata_uri(&Identity::new(bytes), 1020),
        "https://arweave.net/zenbeasts/1020/4wBqpZM9xaSheZzJSMawUKKwhdpChKbZ5eu5ky4Vigw"
    );
    let key = Pubkey::new_unique();
    assert_eq!(
        generate_metadata_uri(&Identity::new(key.to_bytes()), 0),
        format!("https://arweave.net/zenbeasts/0/{}", key)
    );
}
