use vstd::prelude::*;
use crate::{BeastBred, BeastMinted};
use crate::errors::ZenBeastsError;
use crate::identity::Identity;
use crate::instructions::create_beast::{check_labels, labels_fit, minted, minted_event};
use crate::state::beast_account::{newborn, BeastAccount};
use crate::state::program_config::ProgramConfig;
use crate::utils::breeding::{
    breeding_requirements,
    calculate_breeding_cost,
    checked_breeding_cost,
    child_generation,
    elder_generation,
    validate_breeding_requirements,
};
use crate::utils::randomness::{keccak256, twos_complement, unsigned_time};
use crate::utils::traits::{breed_traits, bred_traits, breeding_input};
use crate::utils::treasury::{burn_and_transfer, calculate_burn_and_transfer, Payment};

verus! {

/// A breeding that took place: the child, the two records of it, what becomes of
/// the fee, and both parents and the configuration as the breeding leaves them.
pub struct Breeding {
    pub child: BeastAccount,
    pub minted: BeastMinted,
    pub bred: BeastBred,
    pub payment: Payment,
    pub parent_a: BeastAccount,
    pub parent_b: BeastAccount,
    pub config: ProgramConfig,
}

/// A parent after it bred at `current_time`.
pub open spec fn after_breeding(parent: BeastAccount, current_time: i64) -> BeastAccount {
    BeastAccount {
        last_breeding: current_time,
        breeding_count: (parent.breeding_count + 1) as u8,
        ..parent
    }
}

/// The seed that a breeding's variations are drawn from: the caller's seed mixed
/// with the time, bit by bit.
pub open spec fn mixed_seed(seed: u64, current_time: i64) -> u64 {
    seed ^ twos_complement(current_time)
}

/// The traits that the hash gives the child of two parents.
pub open spec fn child_traits(
    seed: u64,
    parent_a: BeastAccount,
    parent_b: BeastAccount,
    current_time: i64,
) -> [u8; 10] {
    bred_traits(
        keccak256(
            breeding_input(mixed_seed(seed, current_time), parent_a.traits@, parent_b.traits@),
        ),
        parent_a.traits@,
        parent_b.traits@,
    )
}

/// A breeding, given the child's traits.
///
/// The name and the description address must be short enough; the payer must
/// control both parents, which must be two creatures; both must be allowed to
/// breed; the fee that is offered must cover the breeding cost, and the mint of
/// the account it is paid from, `fee_mint`, must be the token's, `zen_mint`. The
/// whole fee is charged and split by the burn percentage. The child belongs to
/// the payer and is one generation after the elder parent.
pub open spec fn breeding(
    parent_a: BeastAccount,
    parent_b: BeastAccount,
    config: ProgramConfig,
    payer: Identity,
    child_mint: Identity,
    child_bump: u8,
    fee_mint: Identity,
    zen_mint: Identity,
    name: Seq<char>,
    uri: String,
    zen_amount: u64,
    current_time: i64,
    traits: [u8; 10],
) -> Result<Breeding, ZenBeastsError> {
    let cost = checked_breeding_cost(
        config.breeding_base_cost,
        config.generation_multiplier,
        elder_generation(parent_a.generation, parent_b.generation),
    );
    let split = burn_and_transfer(zen_amount, config.burn_percentage);
    let child = newborn(
        child_mint,
        payer,
        traits,
        [parent_a.mint, parent_b.mint],
        child_generation(parent_a.generation, parent_b.generation),
        uri,
        child_bump,
    );
    if labels_fit(name, uri@) is Err {
        Err(labels_fit(name, uri@)->Err_0)
    } else if parent_a.owner != payer || parent_b.owner != payer {
        Err(ZenBeastsError::NotOwner)
    } else if parent_a.mint == parent_b.mint {
        Err(ZenBeastsError::InvalidParents)
    } else if breeding_requirements(&parent_a, &parent_b, current_time, &config) is Err {
        Err(breeding_requirements(&parent_a, &parent_b, current_time, &config)->Err_0)
    } else if cost is Err {
        Err(cost->Err_0)
    } else if zen_amount < cost->Ok_0 {
        Err(ZenBeastsError::InsufficientFunds)
    } else if fee_mint != zen_mint {
        Err(ZenBeastsError::TokenAccountMismatch)
    } else if split is Err {
        Err(split->Err_0)
    } else if config.total_minted == u64::MAX {
        Err(ZenBeastsError::ArithmeticOverflow)
    } else {
        Ok(
            Breeding {
                child,
                minted: minted(child, current_time),
                bred: BeastBred {
                    parent1: parent_a.mint,
                    parent2: parent_b.mint,
                    offspring: child_mint,
                    generation: child.generation,
                    cost_paid: zen_amount,
                },
                payment: Payment {
                    burn_amount: split->Ok_0.0,
                    treasury_amount: split->Ok_0.1,
                },
                parent_a: after_breeding(parent_a, current_time),
                parent_b: after_breeding(parent_b, current_time),
                config: ProgramConfig { total_minted: (config.total_minted + 1) as u64, ..config },
            },
        )
    }
}

/// A breeding charges exactly the fee, counts one breeding more for each parent
/// without passing the configured maximum, and leaves the parents in or out of
/// combat as they were.
pub proof fn lemma_breeding_accounts(
    parent_a: BeastAccount,
    parent_b: BeastAccount,
    config: ProgramConfig,
    payer: Identity,
    child_mint: Identity,
    child_bump: u8,
    fee_mint: Identity,
    zen_mint: Identity,
    name: Seq<char>,
    uri: String,
    zen_amount: u64,
    current_time: i64,
    traits: [u8; 10],
)
    ensures
        breeding(
            parent_a,
            parent_b,
            config,
            payer,
            child_mint,
            child_bump,
            fee_mint,
            zen_mint,
            name,
            uri,
            zen_amount,
            current_time,
            traits,
        ) matches Ok(done) ==> {
            &&& done.payment.burn_amount + done.payment.treasury_amount == zen_amount
            &&& done.parent_a.breeding_count == parent_a.breeding_count + 1
            &&& done.parent_b.breeding_count == parent_b.breeding_count + 1
            &&& done.parent_a.breeding_count <= config.max_breeding_count
            &&& done.parent_b.breeding_count <= config.max_breeding_count
            &&& done.parent_a.combat_stats == parent_a.combat_stats
            &&& done.parent_b.combat_stats == parent_b.combat_stats
            &&& !done.child.combat_stats.in_combat
            &&& parent_a.wf() ==> done.parent_a.wf()
            &&& parent_b.wf() ==> done.parent_b.wf()
        },
{
    crate::utils::treasury::lemma_split_is_exact(zen_amount, config.burn_percentage);
}

/// Breeds two creatures into a child with the given traits. Where it refuses,
/// nothing is changed.
pub fn breed_with_traits(
    parent_a: &mut BeastAccount,
    parent_b: &mut BeastAccount,
    config: &mut ProgramConfig,
    payer: Identity,
    child_mint: Identity,
    child_bump: u8,
    fee_mint: Identity,
    zen_mint: Identity,
    name: String,
    uri: String,
    zen_amount: u64,
    current_time: i64,
    traits: [u8; 10],
) -> (r: Result<(BeastAccount, BeastMinted, BeastBred, Payment), ZenBeastsError>)
    ensures
        match breeding(
            *old(parent_a),
            *old(parent_b),
            *old(config),
            payer,
            child_mint,
            child_bump,
            fee_mint,
            zen_mint,
            name@,
            uri,
            zen_amount,
            current_time,
            traits,
        ) {
            Ok(done) => {
                &&& r == Ok::<(BeastAccount, BeastMinted, BeastBred, Payment), ZenBeastsError>(
                    (done.child, done.minted, done.bred, done.payment),
                )
                &&& *final(parent_a) == done.parent_a
                &&& *final(parent_b) == done.parent_b
                &&& *final(config) == done.config
            },
            Err(e) => {
                &&& r == Err::<(BeastAccount, BeastMinted, BeastBred, Payment), ZenBeastsError>(e)
                &&& *final(parent_a) == *old(parent_a)
                &&& *final(parent_b) == *old(parent_b)
                &&& *final(config) == *old(config)
            },
        },
{
    match check_labels(name.as_str(), uri.as_str()) {
        Ok(_) => {},
        Err(e) => {
            return Err(e);
        },
    }
    if parent_a.owner != payer {
        return Err(ZenBeastsError::NotOwner);
    }
    if parent_b.owner != payer {
        return Err(ZenBeastsError::NotOwner);
    }
    if parent_a.mint == parent_b.mint {
        return Err(ZenBeastsError::InvalidParents);
    }
    match validate_breeding_requirements(parent_a, parent_b, current_time, config) {
        Ok(_) => {},
        Err(e) => {
            return Err(e);
        },
    }
    let required_cost = match calculate_breeding_cost(parent_a, parent_b, config) {
        Ok(cost) => cost,
        Err(e) => {
            return Err(e);
        },
    };
    if zen_amount < required_cost {
        return Err(ZenBeastsError::InsufficientFunds);
    }
    if fee_mint != zen_mint {
        return Err(ZenBeastsError::TokenAccountMismatch);
    }
    let (burn_amount, treasury_amount) = match calculate_burn_and_transfer(
        zen_amount,
        config.burn_percentage,
    ) {
        Ok(parts) => parts,
        Err(e) => {
            return Err(e);
        },
    };
    let total_minted = match config.total_minted.checked_add(1) {
        Some(n) => n,
        None => {
            return Err(ZenBeastsError::ArithmeticOverflow);
        },
    };
    let max_gen = if parent_a.generation >= parent_b.generation {
        parent_a.generation
    } else {
        parent_b.generation
    };
    let child = BeastAccount::new(
        child_mint,
        payer,
        traits,
        [parent_a.mint, parent_b.mint],
        max_gen.saturating_add(1),
        uri,
        child_bump,
    );
    parent_a.update_breeding(current_time);
    parent_b.update_breeding(current_time);
    config.total_minted = total_minted;
    let minted = minted_event(&child, current_time);
    let bred = BeastBred {
        parent1: parent_a.mint,
        parent2: parent_b.mint,
        offspring: child_mint,
        generation: child.generation,
        cost_paid: zen_amount,
    };
    Ok((child, minted, bred, Payment { burn_amount, treasury_amount }))
}

/// Breeds two creatures. The child's traits are drawn from the hash of the mixed
/// seed and both parents' traits. Where it refuses, nothing is changed.
pub fn handler(
    parent_a: &mut BeastAccount,
    parent_b: &mut BeastAccount,
    config: &mut ProgramConfig,
    payer: Identity,
    child_mint: Identity,
    child_bump: u8,
    fee_mint: Identity,
    zen_mint: Identity,
    seed: u64,
    name: String,
    uri: String,
    zen_amount: u64,
    current_time: i64,
) -> (r: Result<(BeastAccount, BeastMinted, BeastBred, Payment), ZenBeastsError>)
    ensures
        match breeding(
            *old(parent_a),
            *old(parent_b),
            *old(config),
            payer,
            child_mint,
            child_bump,
            fee_mint,
            zen_mint,
            name@,
            uri,
            zen_amount,
            current_time,
            child_traits(seed, *old(parent_a), *old(parent_b), current_time),
        ) {
            Ok(done) => {
                &&& r == Ok::<(BeastAccount, BeastMinted, BeastBred, Payment), ZenBeastsError>(
                    (done.child, done.minted, done.bred, done.payment),
                )
                &&& *final(parent_a) == done.parent_a
                &&& *final(parent_b) == done.parent_b
                &&& *final(config) == done.config
            },
            Err(e) => {
                &&& r == Err::<(BeastAccount, BeastMinted, BeastBred, Payment), ZenBeastsError>(e)
                &&& *final(parent_a) == *old(parent_a)
                &&& *final(parent_b) == *old(parent_b)
                &&& *final(config) == *old(config)
            },
        },
{
    let seed_mix = seed ^ unsigned_time(current_time);
    let (traits, _rarity_score) = breed_traits(seed_mix, &parent_a.traits, &parent_b.traits);
    breed_with_traits(
        parent_a,
        parent_b,
        config,
        payer,
        child_mint,
        child_bump,
        fee_mint,
        zen_mint,
        name,
        uri,
        zen_amount,
        current_time,
        traits,
    )
}

} // verus!
