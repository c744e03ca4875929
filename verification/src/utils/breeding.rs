use vstd::prelude::*;
use vstd::arithmetic::power::{lemma_pow0, lemma_pow1, lemma_pow_increases, pow};
use crate::errors::ZenBeastsError;
use crate::state::beast_account::BeastAccount;
use crate::state::program_config::ProgramConfig;
use crate::utils::cooldown::{can_act, require_not_in_breeding_cooldown};

verus! {

/// The greater of two generations.
pub open spec fn elder_generation(a: u8, b: u8) -> u8 {
    if a >= b {
        a
    } else {
        b
    }
}

/// The generation of a child: one more than the elder parent's, and 255 at most.
pub open spec fn child_generation(a: u8, b: u8) -> u8 {
    if elder_generation(a, b) == 255 {
        255
    } else {
        (elder_generation(a, b) + 1) as u8
    }
}

/// The cost of breeding in exact arithmetic: the base cost times the multiplier to
/// the power of the elder parent's generation.
pub open spec fn breeding_cost(base_cost: u64, multiplier: u64, generation: u8) -> int {
    base_cost * pow(multiplier as int, generation as nat)
}

/// The cost of breeding as it is charged: the exact cost where the power and the
/// product fit 64 bits, an overflow where one of them does not.
pub open spec fn checked_breeding_cost(base_cost: u64, multiplier: u64, generation: u8) -> Result<
    u64,
    ZenBeastsError,
> {
    if pow(multiplier as int, generation as nat) > u64::MAX || breeding_cost(
        base_cost,
        multiplier,
        generation,
    ) > u64::MAX {
        Err(ZenBeastsError::ArithmeticOverflow)
    } else {
        Ok(breeding_cost(base_cost, multiplier, generation) as u64)
    }
}

/// Whether a pair may breed at `current_time`: both cooldowns are over and both
/// have bred less often than the configuration allows.
pub open spec fn breeding_requirements(
    parent_a: &BeastAccount,
    parent_b: &BeastAccount,
    current_time: i64,
    config: &ProgramConfig,
) -> Result<(), ZenBeastsError> {
    if !can_act(current_time, parent_a.last_breeding, config.breeding_cooldown) || !can_act(
        current_time,
        parent_b.last_breeding,
        config.breeding_cooldown,
    ) {
        Err(ZenBeastsError::BreedingCooldownActive)
    } else if parent_a.breeding_count >= config.max_breeding_count || parent_b.breeding_count
        >= config.max_breeding_count {
        Err(ZenBeastsError::MaxBreedingReached)
    } else {
        Ok(())
    }
}

/// Parents that were not bred themselves pay the base cost, whatever the multiplier.
pub proof fn lemma_first_generation_pays_base(base_cost: u64, multiplier: u64)
    ensures
        breeding_cost(base_cost, multiplier, 0) == base_cost,
        checked_breeding_cost(base_cost, multiplier, 0) == Ok::<u64, ZenBeastsError>(base_cost),
{
    lemma_pow0(multiplier as int);
}

/// Each generation multiplies the cost once more.
pub proof fn lemma_breeding_cost_step(base_cost: u64, multiplier: u64, generation: u8)
    requires
        generation < 255,
    ensures
        breeding_cost(base_cost, multiplier, (generation + 1) as u8) == breeding_cost(
            base_cost,
            multiplier,
            generation,
        ) * multiplier,
{
    let p = pow(multiplier as int, generation as nat);
    reveal(pow);
    assert(pow(multiplier as int, (generation + 1) as nat) == multiplier * p);
    assert(base_cost * (multiplier * p) == (base_cost * p) * multiplier) by (nonlinear_arith);
}

/// Whether the creature has bred less often than `max_breeding_count`.
pub fn can_breed_count(beast: &BeastAccount, max_breeding_count: u8) -> (allowed: bool)
    ensures
        allowed == (beast.breeding_count < max_breeding_count),
{
    beast.breeding_count < max_breeding_count
}

/// Refuses with `MaxBreedingReached` a creature that has bred as often as allowed.
pub fn require_breeding_count_available(beast: &BeastAccount, max_breeding_count: u8) -> (r: Result<
    (),
    ZenBeastsError,
>)
    ensures
        beast.breeding_count < max_breeding_count ==> r == Ok::<(), ZenBeastsError>(()),
        beast.breeding_count >= max_breeding_count ==> r == Err::<(), ZenBeastsError>(
            ZenBeastsError::MaxBreedingReached,
        ),
{
    if can_breed_count(beast, max_breeding_count) {
        Ok(())
    } else {
        Err(ZenBeastsError::MaxBreedingReached)
    }
}

/// The cost of breeding the two parents: the base cost times the generation
/// multiplier to the power of the elder parent's generation, or an overflow.
pub fn calculate_breeding_cost(
    parent_a: &BeastAccount,
    parent_b: &BeastAccount,
    config: &ProgramConfig,
) -> (r: Result<u64, ZenBeastsError>)
    ensures
        r == checked_breeding_cost(
            config.breeding_base_cost,
            config.generation_multiplier,
            elder_generation(parent_a.generation, parent_b.generation),
        ),
        parent_a.generation == 0 && parent_b.generation == 0 ==> r == Ok::<u64, ZenBeastsError>(
            config.breeding_base_cost,
        ),
{
    let max_generation = if parent_a.generation >= parent_b.generation {
        parent_a.generation
    } else {
        parent_b.generation
    };
    let multiplier = config.generation_multiplier;
    proof {
        lemma_first_generation_pays_base(config.breeding_base_cost, multiplier);
    }
    let multiplier_power = if max_generation == 0 {
        proof {
            lemma_pow0(multiplier as int);
        }
        1u64
    } else {
        let mut result = multiplier;
        let mut k: u8 = 1;
        proof {
            lemma_pow1(multiplier as int);
        }
        while k < max_generation
            invariant
                1 <= k <= max_generation,
                max_generation == elder_generation(parent_a.generation, parent_b.generation),
                multiplier == config.generation_multiplier,
                result == pow(multiplier as int, k as nat),
            decreases max_generation - k,
        {
            proof {
                reveal(pow);
                assert(pow(multiplier as int, (k + 1) as nat) == multiplier * pow(
                    multiplier as int,
                    k as nat,
                ));
                assert(result * multiplier == multiplier * result) by (nonlinear_arith);
            }
            result =
            match result.checked_mul(multiplier) {
                Some(next) => next,
                None => {
                    proof {
                        assert(multiplier > 0) by (nonlinear_arith)
                            requires
                                result * multiplier > u64::MAX,
                                result >= 0,
                                multiplier >= 0,
                        ;
                        lemma_pow_increases(
                            multiplier as nat,
                            (k + 1) as nat,
                            max_generation as nat,
                        );
                    }
                    return Err(ZenBeastsError::ArithmeticOverflow);
                },
            };
            k += 1;
        }
        result
    };
    match config.breeding_base_cost.checked_mul(multiplier_power) {
        Some(cost) => Ok(cost),
        None => Err(ZenBeastsError::ArithmeticOverflow),
    }
}

/// Checks that both parents may breed at `current_time`: first both cooldowns,
/// then both breeding counts.
pub fn validate_breeding_requirements(
    parent_a: &BeastAccount,
    parent_b: &BeastAccount,
    current_time: i64,
    config: &ProgramConfig,
) -> (r: Result<(), ZenBeastsError>)
    ensures
        r == breeding_requirements(parent_a, parent_b, current_time, config),
{
    match require_not_in_breeding_cooldown(parent_a, current_time, config.breeding_cooldown) {
        Ok(_) => {},
        Err(e) => {
            return Err(e);
        },
    }
    match require_not_in_breeding_cooldown(parent_b, current_time, config.breeding_cooldown) {
        Ok(_) => {},
        Err(e) => {
            return Err(e);
        },
    }
    match require_breeding_count_available(parent_a, config.max_breeding_count) {
        Ok(_) => {},
        Err(e) => {
            return Err(e);
        },
    }
    match require_breeding_count_available(parent_b, config.max_breeding_count) {
        Ok(_) => {},
        Err(e) => {
            return Err(e);
        },
    }
    Ok(())
}

} // verus!
