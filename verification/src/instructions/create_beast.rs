use vstd::prelude::*;
use vstd::utf8::encode_utf8;
use crate::BeastMinted;
use crate::errors::ZenBeastsError;
use crate::identity::{nobody, Identity};
use crate::state::beast_account::{newborn, BeastAccount};
use crate::state::program_config::ProgramConfig;
use crate::utils::randomness::{
    keccak256,
    push_u64_le,
    twos_complement,
    u64_le_bytes,
    unsigned_time,
};
use crate::utils::traits::{generate_traits, generation_input, traits_of_digest};

verus! {

/// The longest name a creature can have, in bytes.
pub const MAX_NAME_LEN: usize = 32;

/// The longest description address a creature can have, in bytes.
pub const MAX_URI_LEN: usize = 200;

/// The length of a text in bytes, encoded as UTF-8.
pub open spec fn utf8_len(text: Seq<char>) -> nat {
    encode_utf8(text).len()
}

/// Whether a name and a description address are short enough, and if not, which
/// is too long, the name first.
pub open spec fn labels_fit(name: Seq<char>, uri: Seq<char>) -> Result<(), ZenBeastsError> {
    if utf8_len(name) > MAX_NAME_LEN {
        Err(ZenBeastsError::NameTooLong)
    } else if utf8_len(uri) > MAX_URI_LEN {
        Err(ZenBeastsError::UriTooLong)
    } else {
        Ok(())
    }
}

/// A creature that was created: the creature, the record of it, and the
/// configuration with one more creature counted.
pub struct Creation {
    pub beast: BeastAccount,
    pub event: BeastMinted,
    pub config: ProgramConfig,
}

/// The record of a creature that came into being at `current_time`.
pub open spec fn minted(beast: BeastAccount, current_time: i64) -> BeastMinted {
    BeastMinted {
        mint: beast.mint,
        owner: beast.owner,
        traits: [beast.traits[0], beast.traits[1], beast.traits[2], beast.traits[3]],
        rarity_score: beast.rarity_score,
        generation: beast.generation,
        timestamp: current_time,
    }
}

/// The creation of a creature with the given traits: refused for a name or a
/// description address that is too long, and when the count of creatures is at its
/// limit. The creature is of generation 0 and has nobody for parents.
pub open spec fn creation(
    config: ProgramConfig,
    mint: Identity,
    payer: Identity,
    bump: u8,
    name: Seq<char>,
    uri: String,
    current_time: i64,
    traits: [u8; 10],
) -> Result<Creation, ZenBeastsError> {
    let beast = newborn(mint, payer, traits, [nobody(), nobody()], 0, uri, bump);
    if labels_fit(name, uri@) is Err {
        Err(labels_fit(name, uri@)->Err_0)
    } else if config.total_minted == u64::MAX {
        Err(ZenBeastsError::ArithmeticOverflow)
    } else {
        Ok(
            Creation {
                beast,
                event: minted(beast, current_time),
                config: ProgramConfig { total_minted: (config.total_minted + 1) as u64, ..config },
            },
        )
    }
}

/// The traits that the hash gives a creature that `payer` creates from `seed` at
/// `current_time`.
pub open spec fn created_traits(seed: u64, payer: Identity, current_time: i64) -> [u8; 10] {
    traits_of_digest(
        keccak256(generation_input(seed, payer, u64_le_bytes(twos_complement(current_time)))),
    )
}

/// Checks the lengths of a name and a description address.
pub fn check_labels(name: &str, uri: &str) -> (r: Result<(), ZenBeastsError>)
    ensures
        r == labels_fit(name@, uri@),
{
    if name.as_bytes().len() > MAX_NAME_LEN {
        return Err(ZenBeastsError::NameTooLong);
    }
    if uri.as_bytes().len() > MAX_URI_LEN {
        return Err(ZenBeastsError::UriTooLong);
    }
    Ok(())
}

/// The record of a creature that came into being at `current_time`.
pub fn minted_event(beast: &BeastAccount, current_time: i64) -> (event: BeastMinted)
    ensures
        event == minted(*beast, current_time),
{
    BeastMinted {
        mint: beast.mint,
        owner: beast.owner,
        traits: [beast.traits[0], beast.traits[1], beast.traits[2], beast.traits[3]],
        rarity_score: beast.rarity_score,
        generation: beast.generation,
        timestamp: current_time,
    }
}

/// Creates a creature with the given traits. Where it refuses, nothing is changed.
pub fn create_with_traits(
    config: &mut ProgramConfig,
    mint: Identity,
    payer: Identity,
    bump: u8,
    name: String,
    uri: String,
    current_time: i64,
    traits: [u8; 10],
) -> (r: Result<(BeastAccount, BeastMinted), ZenBeastsError>)
    ensures
        match creation(*old(config), mint, payer, bump, name@, uri, current_time, traits) {
            Ok(created) => {
                &&& r == Ok::<(BeastAccount, BeastMinted), ZenBeastsError>(
                    (created.beast, created.event),
                )
                &&& *final(config) == created.config
            },
            Err(e) => {
                &&& r == Err::<(BeastAccount, BeastMinted), ZenBeastsError>(e)
                &&& *final(config) == *old(config)
            },
        },
{
    match check_labels(name.as_str(), uri.as_str()) {
        Ok(_) => {},
        Err(e) => {
            return Err(e);
        },
    }
    let total_minted = match config.total_minted.checked_add(1) {
        Some(n) => n,
        None => {
            return Err(ZenBeastsError::ArithmeticOverflow);
        },
    };
    let beast = BeastAccount::new(
        mint,
        payer,
        traits,
        [Identity::zero(), Identity::zero()],
        0,
        uri,
        bump,
    );
    let event = minted_event(&beast, current_time);
    config.total_minted = total_minted;
    Ok((beast, event))
}

/// Creates a creature for `payer`. Its traits are drawn from the hash of the
/// payer, the seed and the time. Where it refuses, nothing is changed.
pub fn handler(
    config: &mut ProgramConfig,
    mint: Identity,
    payer: Identity,
    bump: u8,
    seed: u64,
    name: String,
    uri: String,
    current_time: i64,
) -> (r: Result<(BeastAccount, BeastMinted), ZenBeastsError>)
    ensures
        match creation(
            *old(config),
            mint,
            payer,
            bump,
            name@,
            uri,
            current_time,
            created_traits(seed, payer, current_time),
        ) {
            Ok(created) => {
                &&& r == Ok::<(BeastAccount, BeastMinted), ZenBeastsError>(
                    (created.beast, created.event),
                )
                &&& *final(config) == created.config
            },
            Err(e) => {
                &&& r == Err::<(BeastAccount, BeastMinted), ZenBeastsError>(e)
                &&& *final(config) == *old(config)
            },
        },
{
    let mut recent: Vec<u8> = Vec::new();
    push_u64_le(&mut recent, unsigned_time(current_time));
    let (traits_arr, _rarity_score) = generate_traits(seed, &payer, recent.as_slice());
    create_with_traits(config, mint, payer, bump, name, uri, current_time, traits_arr)
}

} // verus!
