use vstd::prelude::*;
use crate::CombatInitiated;
use crate::errors::ZenBeastsError;
use crate::identity::Identity;
use crate::state::beast_account::{BeastAccount, CombatStats, MAX_ENERGY};
use crate::state::combat_session::{CombatSession, CombatStatus};
use crate::state::program_config::ProgramConfig;
use crate::utils::randomness::{
    keccak256,
    keccak_hash,
    push_bytes,
    push_u64_le,
    seed_from_digest,
    twos_complement,
    u64_from_le_bytes,
    u64_le_bytes,
    unsigned_time,
};

verus! {

/// A fight that was opened: the record of it, the fight, and both creatures as the
/// opening leaves them. The challenger's controller owes the escrow the wager.
pub struct Opening {
    pub event: CombatInitiated,
    pub session: CombatSession,
    pub challenger: BeastAccount,
    pub opponent: BeastAccount,
}

/// The bytes that are hashed for a fight's seed: the fight's number, both
/// creatures and the time.
pub open spec fn combat_seed_input(
    session_id: u64,
    challenger: Identity,
    opponent: Identity,
    current_time: i64,
) -> Seq<u8> {
    u64_le_bytes(session_id) + challenger@ + opponent@ + u64_le_bytes(
        twos_complement(current_time),
    )
}

/// The seed of a fight: the first eight bytes of the hash of [`combat_seed_input`].
pub open spec fn combat_seed(
    session_id: u64,
    challenger: Identity,
    opponent: Identity,
    current_time: i64,
) -> u64 {
    u64_from_le_bytes(
        keccak256(combat_seed_input(session_id, challenger, opponent, current_time)),
    ) as u64
}

/// A creature as it enters a fight at `current_time`: rested, in combat.
pub open spec fn entered(beast: BeastAccount, current_time: i64) -> BeastAccount {
    BeastAccount {
        combat_stats: CombatStats {
            hp: beast.max_hp() as u16,
            energy: MAX_ENERGY,
            last_combat: current_time,
            in_combat: true,
            ..beast.combat_stats
        },
        ..beast
    }
}

/// The opening of a fight, given its seed.
///
/// The challenger's controller must be the one who asks, the two creatures must
/// differ and so must their controllers, the wager must lie within the configured
/// bounds, both creatures must be out of combat with their combat cooldown over,
/// and the challenger's controller must hold the wager. The fight starts active,
/// with no turn taken and both creatures at full hit points.
pub open spec fn opening(
    challenger: BeastAccount,
    opponent: BeastAccount,
    config: ProgramConfig,
    challenger_owner: Identity,
    challenger_balance: u64,
    session_id: u64,
    wager_amount: u64,
    bump: u8,
    current_time: i64,
    seed: u64,
) -> Result<Opening, ZenBeastsError> {
    if challenger.owner != challenger_owner {
        Err(ZenBeastsError::NotOwner)
    } else if challenger.mint == opponent.mint {
        Err(ZenBeastsError::InvalidCombatSession)
    } else if challenger_owner == opponent.owner {
        Err(ZenBeastsError::SelfCombatNotAllowed)
    } else if wager_amount < config.min_combat_wager || wager_amount > config.max_combat_wager {
        Err(ZenBeastsError::InsufficientWager)
    } else if !challenger.may_enter_combat(current_time, config.combat_cooldown) {
        Err(ZenBeastsError::CombatCooldownActive)
    } else if !opponent.may_enter_combat(current_time, config.combat_cooldown) {
        Err(ZenBeastsError::OpponentNotAvailable)
    } else if challenger_balance < wager_amount {
        Err(ZenBeastsError::InsufficientFunds)
    } else {
        Ok(
            Opening {
                event: CombatInitiated {
                    session_id,
                    challenger: challenger.mint,
                    opponent: opponent.mint,
                    wager_amount,
                    timestamp: current_time,
                },
                session: CombatSession {
                    session_id,
                    challenger: challenger.mint,
                    opponent: opponent.mint,
                    challenger_owner,
                    opponent_owner: opponent.owner,
                    wager_amount,
                    turn_count: 0,
                    challenger_hp: challenger.max_hp() as u16,
                    opponent_hp: opponent.max_hp() as u16,
                    last_turn_timestamp: current_time,
                    combat_seed: seed,
                    status: CombatStatus::Active,
                    bump,
                },
                challenger: entered(challenger, current_time),
                opponent: entered(opponent, current_time),
            },
        )
    }
}

/// An opening puts both creatures in combat, and none that is in combat can be
/// taken into a fight. The fight and the creatures it leaves are sound if the
/// creatures were.
pub proof fn lemma_opening_enters_combat(
    challenger: BeastAccount,
    opponent: BeastAccount,
    config: ProgramConfig,
    challenger_owner: Identity,
    challenger_balance: u64,
    session_id: u64,
    wager_amount: u64,
    bump: u8,
    current_time: i64,
    seed: u64,
)
    ensures
        challenger.combat_stats.in_combat || opponent.combat_stats.in_combat ==> opening(
            challenger,
            opponent,
            config,
            challenger_owner,
            challenger_balance,
            session_id,
            wager_amount,
            bump,
            current_time,
            seed,
        ) is Err,
        opening(
            challenger,
            opponent,
            config,
            challenger_owner,
            challenger_balance,
            session_id,
            wager_amount,
            bump,
            current_time,
            seed,
        ) matches Ok(opened) ==> {
            &&& opened.challenger.combat_stats.in_combat
            &&& opened.opponent.combat_stats.in_combat
            &&& opened.session.wf()
            &&& challenger.wf() ==> opened.challenger.wf()
            &&& opponent.wf() ==> opened.opponent.wf()
        },
{
}

/// Opens a fight whose seed is given. Where it refuses, nothing is changed.
pub fn open_session(
    challenger_beast: &mut BeastAccount,
    opponent_beast: &mut BeastAccount,
    config: &ProgramConfig,
    challenger_owner: Identity,
    challenger_balance: u64,
    session_id: u64,
    wager_amount: u64,
    bump: u8,
    current_time: i64,
    seed: u64,
) -> (r: Result<(CombatSession, CombatInitiated), ZenBeastsError>)
    ensures
        match opening(
            *old(challenger_beast),
            *old(opponent_beast),
            *config,
            challenger_owner,
            challenger_balance,
            session_id,
            wager_amount,
            bump,
            current_time,
            seed,
        ) {
            Ok(opened) => {
                &&& r == Ok::<(CombatSession, CombatInitiated), ZenBeastsError>(
                    (opened.session, opened.event),
                )
                &&& *final(challenger_beast) == opened.challenger
                &&& *final(opponent_beast) == opened.opponent
            },
            Err(e) => {
                &&& r == Err::<(CombatSession, CombatInitiated), ZenBeastsError>(e)
                &&& *final(challenger_beast) == *old(challenger_beast)
                &&& *final(opponent_beast) == *old(opponent_beast)
            },
        },
{
    if challenger_beast.owner != challenger_owner {
        return Err(ZenBeastsError::NotOwner);
    }
    if challenger_beast.mint == opponent_beast.mint {
        return Err(ZenBeastsError::InvalidCombatSession);
    }
    if challenger_owner == opponent_beast.owner {
        return Err(ZenBeastsError::SelfCombatNotAllowed);
    }
    if !(wager_amount >= config.min_combat_wager && wager_amount <= config.max_combat_wager) {
        return Err(ZenBeastsError::InsufficientWager);
    }
    if !challenger_beast.can_enter_combat(current_time, config.combat_cooldown) {
        return Err(ZenBeastsError::CombatCooldownActive);
    }
    if !opponent_beast.can_enter_combat(current_time, config.combat_cooldown) {
        return Err(ZenBeastsError::OpponentNotAvailable);
    }
    if challenger_balance < wager_amount {
        return Err(ZenBeastsError::InsufficientFunds);
    }
    let combat_session = CombatSession {
        session_id,
        challenger: challenger_beast.mint,
        opponent: opponent_beast.mint,
        challenger_owner,
        opponent_owner: opponent_beast.owner,
        wager_amount,
        turn_count: 0,
        challenger_hp: challenger_beast.get_max_hp(),
        opponent_hp: opponent_beast.get_max_hp(),
        last_turn_timestamp: current_time,
        combat_seed: seed,
        status: CombatStatus::Active,
        bump,
    };
    challenger_beast.reset_combat_stats();
    opponent_beast.reset_combat_stats();
    challenger_beast.combat_stats.in_combat = true;
    opponent_beast.combat_stats.in_combat = true;
    challenger_beast.combat_stats.last_combat = current_time;
    opponent_beast.combat_stats.last_combat = current_time;
    let event = CombatInitiated {
        session_id,
        challenger: challenger_beast.mint,
        opponent: opponent_beast.mint,
        wager_amount,
        timestamp: current_time,
    };
    Ok((combat_session, event))
}

/// Opens a fight between the two creatures for the given wager. The fight's seed
/// is drawn from the hash of the fight's number, both creatures and the time.
/// Where it refuses, nothing is changed.
pub fn handler(
    challenger_beast: &mut BeastAccount,
    opponent_beast: &mut BeastAccount,
    config: &ProgramConfig,
    challenger_owner: Identity,
    challenger_balance: u64,
    session_id: u64,
    wager_amount: u64,
    bump: u8,
    current_time: i64,
) -> (r: Result<(CombatSession, CombatInitiated), ZenBeastsError>)
    ensures
        match opening(
            *old(challenger_beast),
            *old(opponent_beast),
            *config,
            challenger_owner,
            challenger_balance,
            session_id,
            wager_amount,
            bump,
            current_time,
            combat_seed(session_id, old(challenger_beast).mint, old(opponent_beast).mint, current_time),
        ) {
            Ok(opened) => {
                &&& r == Ok::<(CombatSession, CombatInitiated), ZenBeastsError>(
                    (opened.session, opened.event),
                )
                &&& *final(challenger_beast) == opened.challenger
                &&& *final(opponent_beast) == opened.opponent
            },
            Err(e) => {
                &&& r == Err::<(CombatSession, CombatInitiated), ZenBeastsError>(e)
                &&& *final(challenger_beast) == *old(challenger_beast)
                &&& *final(opponent_beast) == *old(opponent_beast)
            },
        },
{
    let mut input: Vec<u8> = Vec::new();
    push_u64_le(&mut input, session_id);
    push_bytes(&mut input, challenger_beast.mint.bytes.as_slice());
    push_bytes(&mut input, opponent_beast.mint.bytes.as_slice());
    push_u64_le(&mut input, unsigned_time(current_time));
    let digest = keccak_hash(input.as_slice());
    let seed = seed_from_digest(&digest);
    open_session(
        challenger_beast,
        opponent_beast,
        config,
        challenger_owner,
        challenger_balance,
        session_id,
        wager_amount,
        bump,
        current_time,
        seed,
    )
}

} // verus!
