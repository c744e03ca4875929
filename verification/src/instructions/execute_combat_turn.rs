use vstd::prelude::*;
use crate::CombatTurnExecuted;
use crate::errors::ZenBeastsError;
use crate::identity::Identity;
use crate::state::beast_account::{BeastAccount, CombatStats};
use crate::state::combat_session::{CombatSession, CombatStatus};
use crate::state::program_config::ProgramConfig;
use crate::utils::combat::{
    ability_energy_cost,
    calculate_ability_energy_cost,
    calculate_turn_damage,
    turn_amount,
    turn_input,
    ABILITY_VITALITY,
};
use crate::utils::randomness::keccak256;

verus! {

/// A turn that was taken: the record of it, the wager that the executor owes the
/// escrow with it, if any, and the fight and both creatures as the turn leaves
/// them.
pub struct Turn {
    pub event: CombatTurnExecuted,
    pub escrow_due: Option<u64>,
    pub session: CombatSession,
    pub challenger: BeastAccount,
    pub opponent: BeastAccount,
}

/// Whether more time than the timeout has passed since the last turn.
pub open spec fn timed_out(current_time: i64, last_turn: i64, timeout: i64) -> bool {
    current_time - last_turn > timeout
}

/// Whether it is the challenger's turn: it is on even turn counts.
pub open spec fn challengers_turn(turn_count: u8) -> bool {
    turn_count % 2 == 0
}

/// Whether the executor may take the next turn of the fight, and what it owes the
/// escrow with it.
///
/// Refused are a turn in a fight that is over, by anyone but the two controllers,
/// after the timeout, or out of order. The opponent's controller stakes its wager
/// with the opponent's first turn, the turn after the first, and is refused if its
/// balance is below the wager. No other turn owes anything.
pub open spec fn turn_admission(
    session: CombatSession,
    config: ProgramConfig,
    executor: Identity,
    executor_balance: u64,
    current_time: i64,
) -> Result<Option<u64>, ZenBeastsError> {
    let is_challenger = executor == session.challenger_owner;
    let is_opponent = executor == session.opponent_owner;
    if session.status != CombatStatus::Active {
        Err(ZenBeastsError::InvalidCombatSession)
    } else if !is_challenger && !is_opponent {
        Err(ZenBeastsError::NotCombatParticipant)
    } else if timed_out(current_time, session.last_turn_timestamp, config.combat_turn_timeout) {
        Err(ZenBeastsError::CombatTurnTimeout)
    } else if !(if challengers_turn(session.turn_count) {
        is_challenger
    } else {
        is_opponent
    }) {
        Err(ZenBeastsError::InvalidCombatTurn)
    } else if session.turn_count == 1 && is_opponent {
        if executor_balance < session.wager_amount {
            Err(ZenBeastsError::InsufficientFunds)
        } else {
            Ok(Some(session.wager_amount))
        }
    } else {
        Ok(None)
    }
}

/// The acting creature after its turn: its energy less the ability's cost, not
/// below 0, and, if it healed itself, its hit points raised by the amount, not
/// above its maximum.
pub open spec fn actor_after(actor: BeastAccount, ability_index: u8, effect_amount: u16) -> BeastAccount {
    let cost = ability_energy_cost(actor.ability_levels[ability_index as int]);
    BeastAccount {
        combat_stats: CombatStats {
            energy: if actor.combat_stats.energy >= cost {
                (actor.combat_stats.energy - cost) as u8
            } else {
                0
            },
            hp: if ability_index != ABILITY_VITALITY {
                actor.combat_stats.hp
            } else if actor.combat_stats.hp + effect_amount <= actor.max_hp() {
                (actor.combat_stats.hp + effect_amount) as u16
            } else {
                actor.max_hp() as u16
            },
            ..actor.combat_stats
        },
        ..actor
    }
}

/// The other creature after the turn: if it was attacked, its hit points lowered
/// by the amount, not below 0.
pub open spec fn defender_after(defender: BeastAccount, ability_index: u8, effect_amount: u16) -> BeastAccount {
    BeastAccount {
        combat_stats: CombatStats {
            hp: if ability_index == ABILITY_VITALITY {
                defender.combat_stats.hp
            } else if defender.combat_stats.hp >= effect_amount {
                (defender.combat_stats.hp - effect_amount) as u16
            } else {
                0
            },
            ..defender.combat_stats
        },
        ..defender
    }
}

/// Where a fight stands after a turn, from the hit points that the fight holds for
/// both sides once the turn's effect is applied: the acting side has won if the
/// other side is at 0; else the other side has won if the acting side is at 0;
/// else it is a draw if the last turn was taken; else the fight goes on.
pub open spec fn status_after(
    acting_as_challenger: bool,
    actor_hp: u16,
    defender_hp: u16,
    turns_taken: int,
) -> CombatStatus {
    if defender_hp == 0 {
        if acting_as_challenger {
            CombatStatus::ChallengerWon
        } else {
            CombatStatus::OpponentWon
        }
    } else if actor_hp == 0 {
        if acting_as_challenger {
            CombatStatus::OpponentWon
        } else {
            CombatStatus::ChallengerWon
        }
    } else if turns_taken >= CombatSession::MAX_TURNS {
        CombatStatus::Draw
    } else {
        CombatStatus::Active
    }
}

/// The fight after a turn: one more turn taken at `current_time`, the hit points
/// of the side that the effect fell on brought up to date, and the status that
/// follows from them.
pub open spec fn session_after(
    session: CombatSession,
    acting_as_challenger: bool,
    actor: BeastAccount,
    defender: BeastAccount,
    ability_index: u8,
    current_time: i64,
) -> CombatSession {
    let heals = ability_index == ABILITY_VITALITY;
    let challenger_hp = if acting_as_challenger && heals {
        actor.combat_stats.hp
    } else if !acting_as_challenger && !heals {
        defender.combat_stats.hp
    } else {
        session.challenger_hp
    };
    let opponent_hp = if !acting_as_challenger && heals {
        actor.combat_stats.hp
    } else if acting_as_challenger && !heals {
        defender.combat_stats.hp
    } else {
        session.opponent_hp
    };
    CombatSession {
        turn_count: (session.turn_count + 1) as u8,
        last_turn_timestamp: current_time,
        challenger_hp,
        opponent_hp,
        status: status_after(
            acting_as_challenger,
            if acting_as_challenger {
                challenger_hp
            } else {
                opponent_hp
            },
            if acting_as_challenger {
                opponent_hp
            } else {
                challenger_hp
            },
            session.turn_count + 1,
        ),
        ..session
    }
}

/// A turn, given the amount that the ability deals or heals.
///
/// After the checks of [`turn_admission`], the ability must be one of the four and
/// unlocked for the acting creature, which is the challenger if the executor
/// controls it, else the opponent. Too little energy refuses nothing.
pub open spec fn turn(
    session: CombatSession,
    challenger: BeastAccount,
    opponent: BeastAccount,
    config: ProgramConfig,
    executor: Identity,
    executor_balance: u64,
    ability_index: u8,
    current_time: i64,
    effect_amount: u16,
) -> Result<Turn, ZenBeastsError> {
    let acting_as_challenger = executor == session.challenger_owner;
    let actor = if acting_as_challenger {
        challenger
    } else {
        opponent
    };
    let defender = if acting_as_challenger {
        opponent
    } else {
        challenger
    };
    let actor_then = actor_after(actor, ability_index, effect_amount);
    let defender_then = defender_after(defender, ability_index, effect_amount);
    match turn_admission(session, config, executor, executor_balance, current_time) {
        Err(e) => Err(e),
        Ok(escrow_due) => if ability_index >= 4 {
            Err(ZenBeastsError::InvalidTraitIndex)
        } else if actor.abilities[ability_index as int] == 0 {
            Err(ZenBeastsError::AbilityNotUnlocked)
        } else if session.turn_count == u8::MAX {
            Err(ZenBeastsError::ArithmeticOverflow)
        } else {
            Ok(
                Turn {
                    event: CombatTurnExecuted {
                        session_id: session.session_id,
                        turn_count: (session.turn_count + 1) as u8,
                        executor,
                        ability_used: ability_index,
                        damage_dealt: effect_amount,
                        timestamp: current_time,
                    },
                    escrow_due,
                    session: session_after(
                        session,
                        acting_as_challenger,
                        actor_then,
                        defender_then,
                        ability_index,
                        current_time,
                    ),
                    challenger: if acting_as_challenger {
                        actor_then
                    } else {
                        defender_then
                    },
                    opponent: if acting_as_challenger {
                        defender_then
                    } else {
                        actor_then
                    },
                },
            )
        },
    }
}

/// The amount that the executor's ability deals or heals this turn: drawn from the
/// hash of the fight's seed, the turn count and the ability, scaled by the acting
/// creature's trait and ability level. It is 0 for an ability that is none of the
/// four.
pub open spec fn turn_effect(
    session: CombatSession,
    challenger: BeastAccount,
    opponent: BeastAccount,
    executor: Identity,
    ability_index: u8,
) -> u16 {
    let actor = if executor == session.challenger_owner {
        challenger
    } else {
        opponent
    };
    if ability_index < 4 {
        turn_amount(
            keccak256(turn_input(session.combat_seed, session.turn_count, ability_index))[0],
            actor.traits[ability_index as int],
            actor.ability_levels[ability_index as int],
            ability_index,
        ) as u16
    } else {
        0
    }
}

/// A turn keeps what holds of the fight and of both creatures, leaves both in or
/// out of combat as they were, and ends the fight at the latest with the tenth
/// turn.
pub proof fn lemma_turn_keeps_invariants(
    session: CombatSession,
    challenger: BeastAccount,
    opponent: BeastAccount,
    config: ProgramConfig,
    executor: Identity,
    executor_balance: u64,
    ability_index: u8,
    current_time: i64,
    effect_amount: u16,
)
    ensures
        turn(
            session,
            challenger,
            opponent,
            config,
            executor,
            executor_balance,
            ability_index,
            current_time,
            effect_amount,
        ) matches Ok(taken) ==> {
            &&& session.wf() ==> taken.session.wf()
            &&& challenger.wf() ==> taken.challenger.wf()
            &&& opponent.wf() ==> taken.opponent.wf()
            &&& taken.challenger.combat_stats.in_combat == challenger.combat_stats.in_combat
            &&& taken.opponent.combat_stats.in_combat == opponent.combat_stats.in_combat
            &&& taken.session.turn_count == session.turn_count + 1
            &&& taken.session.turn_count >= CombatSession::MAX_TURNS ==> taken.session.status
                != CombatStatus::Active
        },
{
}

/// Checks whether the executor may take the next turn of the fight, and says what
/// it owes the escrow with it. These are the checks that come before any token is
/// moved.
pub fn admit_turn(
    session: &CombatSession,
    config: &ProgramConfig,
    executor: Identity,
    executor_balance: u64,
    current_time: i64,
) -> (r: Result<Option<u64>, ZenBeastsError>)
    ensures
        r == turn_admission(*session, *config, executor, executor_balance, current_time),
{
    if !session.is_active() {
        return Err(ZenBeastsError::InvalidCombatSession);
    }
    let is_challenger = executor == session.challenger_owner;
    let is_opponent = executor == session.opponent_owner;
    if !is_challenger && !is_opponent {
        return Err(ZenBeastsError::NotCombatParticipant);
    }
    let late = match current_time.checked_sub(session.last_turn_timestamp) {
        Some(since) => since > config.combat_turn_timeout,
        None => current_time > session.last_turn_timestamp,
    };
    if late {
        return Err(ZenBeastsError::CombatTurnTimeout);
    }
    let is_challenger_turn = session.turn_count % 2 == 0;
    if !((is_challenger_turn && is_challenger) || (!is_challenger_turn && is_opponent)) {
        return Err(ZenBeastsError::InvalidCombatTurn);
    }
    if session.turn_count == 1 && is_opponent {
        if executor_balance < session.wager_amount {
            return Err(ZenBeastsError::InsufficientFunds);
        }
        return Ok(Some(session.wager_amount));
    }
    Ok(None)
}

/// Takes a turn whose amount of damage or healing is given. Where it refuses,
/// nothing is changed.
pub fn apply_turn(
    session: &mut CombatSession,
    challenger_beast: &mut BeastAccount,
    opponent_beast: &mut BeastAccount,
    config: &ProgramConfig,
    executor: Identity,
    executor_balance: u64,
    ability_index: u8,
    current_time: i64,
    effect_amount: u16,
) -> (r: Result<(CombatTurnExecuted, Option<u64>), ZenBeastsError>)
    ensures
        match turn(
            *old(session),
            *old(challenger_beast),
            *old(opponent_beast),
            *config,
            executor,
            executor_balance,
            ability_index,
            current_time,
            effect_amount,
        ) {
            Ok(taken) => {
                &&& r == Ok::<(CombatTurnExecuted, Option<u64>), ZenBeastsError>(
                    (taken.event, taken.escrow_due),
                )
                &&& *final(session) == taken.session
                &&& *final(challenger_beast) == taken.challenger
                &&& *final(opponent_beast) == taken.opponent
            },
            Err(e) => {
                &&& r == Err::<(CombatTurnExecuted, Option<u64>), ZenBeastsError>(e)
                &&& *final(session) == *old(session)
                &&& *final(challenger_beast) == *old(challenger_beast)
                &&& *final(opponent_beast) == *old(opponent_beast)
            },
        },
{
    let escrow_due = match admit_turn(session, config, executor, executor_balance, current_time) {
        Ok(due) => due,
        Err(e) => {
            return Err(e);
        },
    };
    if ability_index >= 4 {
        return Err(ZenBeastsError::InvalidTraitIndex);
    }
    let is_challenger = executor == session.challenger_owner;
    let unlocked = if is_challenger {
        challenger_beast.has_ability_unlocked(ability_index)
    } else {
        opponent_beast.has_ability_unlocked(ability_index)
    };
    if !unlocked {
        return Err(ZenBeastsError::AbilityNotUnlocked);
    }
    if session.turn_count == u8::MAX {
        return Err(ZenBeastsError::ArithmeticOverflow);
    }
    let ability_type = ability_index;
    let heals = ability_type == ABILITY_VITALITY;
    if is_challenger {
        let level = challenger_beast.ability_levels[ability_index as usize];
        let energy_cost = calculate_ability_energy_cost(ability_type, level);
        challenger_beast.combat_stats.energy = challenger_beast.combat_stats.energy.saturating_sub(
            energy_cost,
        );
        if heals {
            let max_hp = challenger_beast.get_max_hp();
            let raised: u32 = challenger_beast.combat_stats.hp as u32 + effect_amount as u32;
            let new_hp: u16 = if raised <= max_hp as u32 {
                raised as u16
            } else {
                max_hp
            };
            challenger_beast.combat_stats.hp = new_hp;
            session.challenger_hp = new_hp;
        } else {
            let new_hp = opponent_beast.combat_stats.hp.saturating_sub(effect_amount);
            opponent_beast.combat_stats.hp = new_hp;
            session.opponent_hp = new_hp;
        }
    } else {
        let level = opponent_beast.ability_levels[ability_index as usize];
        let energy_cost = calculate_ability_energy_cost(ability_type, level);
        opponent_beast.combat_stats.energy = opponent_beast.combat_stats.energy.saturating_sub(
            energy_cost,
        );
        if heals {
            let max_hp = opponent_beast.get_max_hp();
            let raised: u32 = opponent_beast.combat_stats.hp as u32 + effect_amount as u32;
            let new_hp: u16 = if raised <= max_hp as u32 {
                raised as u16
            } else {
                max_hp
            };
            opponent_beast.combat_stats.hp = new_hp;
            session.opponent_hp = new_hp;
        } else {
            let new_hp = challenger_beast.combat_stats.hp.saturating_sub(effect_amount);
            challenger_beast.combat_stats.hp = new_hp;
            session.challenger_hp = new_hp;
        }
    }
    session.turn_count += 1;
    session.last_turn_timestamp = current_time;
    let (actor_hp, defender_hp) = if is_challenger {
        (session.challenger_hp, session.opponent_hp)
    } else {
        (session.opponent_hp, session.challenger_hp)
    };
    if defender_hp == 0 {
        session.status =
        if is_challenger {
            CombatStatus::ChallengerWon
        } else {
            CombatStatus::OpponentWon
        };
    } else if actor_hp == 0 {
        session.status =
        if is_challenger {
            CombatStatus::OpponentWon
        } else {
            CombatStatus::ChallengerWon
        };
    } else if session.turn_count >= CombatSession::MAX_TURNS {
        session.status = CombatStatus::Draw;
    }
    Ok(
        (
            CombatTurnExecuted {
                session_id: session.session_id,
                turn_count: session.turn_count,
                executor,
                ability_used: ability_index,
                damage_dealt: effect_amount,
                timestamp: current_time,
            },
            escrow_due,
        ),
    )
}

/// Takes the executor's turn with the given ability: draws the amount, spends the
/// energy, heals the acting creature or hurts the other, and decides whether the
/// fight is over. Where it refuses, nothing is changed.
pub fn handler(
    session: &mut CombatSession,
    challenger_beast: &mut BeastAccount,
    opponent_beast: &mut BeastAccount,
    config: &ProgramConfig,
    executor: Identity,
    executor_balance: u64,
    ability_index: u8,
    current_time: i64,
) -> (r: Result<(CombatTurnExecuted, Option<u64>), ZenBeastsError>)
    ensures
        match turn(
            *old(session),
            *old(challenger_beast),
            *old(opponent_beast),
            *config,
            executor,
            executor_balance,
            ability_index,
            current_time,
            turn_effect(
                *old(session),
                *old(challenger_beast),
                *old(opponent_beast),
                executor,
                ability_index,
            ),
        ) {
            Ok(taken) => {
                &&& r == Ok::<(CombatTurnExecuted, Option<u64>), ZenBeastsError>(
                    (taken.event, taken.escrow_due),
                )
                &&& *final(session) == taken.session
                &&& *final(challenger_beast) == taken.challenger
                &&& *final(opponent_beast) == taken.opponent
            },
            Err(e) => {
                &&& r == Err::<(CombatTurnExecuted, Option<u64>), ZenBeastsError>(e)
                &&& *final(session) == *old(session)
                &&& *final(challenger_beast) == *old(challenger_beast)
                &&& *final(opponent_beast) == *old(opponent_beast)
            },
        },
{
    let effect_amount = if ability_index < 4 {
        let (attacker_trait, attacker_ability_level) = if executor == session.challenger_owner {
            (
                challenger_beast.traits[ability_index as usize],
                challenger_beast.ability_levels[ability_index as usize],
            )
        } else {
            (
                opponent_beast.traits[ability_index as usize],
                opponent_beast.ability_levels[ability_index as usize],
            )
        };
        match calculate_turn_damage(
            session.combat_seed,
            session.turn_count,
            attacker_trait,
            attacker_ability_level,
            ability_index,
        ) {
            Ok(amount) => amount,
            Err(_) => 0,
        }
    } else {
        0
    };
    apply_turn(
        session,
        challenger_beast,
        opponent_beast,
        config,
        executor,
        executor_balance,
        ability_index,
        current_time,
        effect_amount,
    )
}

} // verus!
