use vstd::prelude::*;
use crate::CombatResolved;
use crate::errors::ZenBeastsError;
use crate::identity::Identity;
use crate::state::beast_account::{BeastAccount, CombatStats};
use crate::state::combat_session::{CombatSession, CombatStatus};
use crate::state::program_config::ProgramConfig;
use crate::utils::treasury::{lemma_share_bounded, share};

verus! {

/// What leaves the escrow when a fight is settled: the payment to each side, if
/// one is made to it, and the amount that is burned.
#[derive(Clone, Copy, Debug, PartialEq, Eq)]
pub struct Settlement {
    /// Paid to the challenger's controller; `None` where no payment goes to it.
    pub to_challenger: Option<u64>,
    /// Paid to the opponent's controller; `None` where no payment goes to it.
    pub to_opponent: Option<u64>,
    /// Burned.
    pub burned: u64,
}

/// The amount of a payment: 0 where none is made.
pub open spec fn paid(payment: Option<u64>) -> int {
    match payment {
        Some(amount) => amount as int,
        None => 0,
    }
}

/// A settled fight: the record of it, what leaves the escrow, and both creatures
/// as the settlement leaves them.
pub struct Resolution {
    pub event: CombatResolved,
    pub settlement: Settlement,
    pub challenger: BeastAccount,
    pub opponent: BeastAccount,
}

/// The pot of a fight: both wagers.
pub open spec fn total_pot(wager_amount: u64) -> int {
    wager_amount * 2
}

/// A creature after a fight it was in has been settled: out of combat, with one
/// more win or loss as the case may be.
pub open spec fn after_fight(beast: BeastAccount, won: bool, lost: bool) -> BeastAccount {
    BeastAccount {
        combat_stats: CombatStats {
            wins: if won {
                (beast.combat_stats.wins + 1) as u32
            } else {
                beast.combat_stats.wins
            },
            losses: if lost {
                (beast.combat_stats.losses + 1) as u32
            } else {
                beast.combat_stats.losses
            },
            in_combat: false,
            ..beast.combat_stats
        },
        ..beast
    }
}

/// The settlement of a finished fight.
///
/// It is refused while the fight is on, and to anyone but the two controllers.
/// The pot is twice the wager. After a draw each side gets its wager back and
/// nothing is burned. Else the winner gets the winner's percentage of the pot,
/// rounded down, the rest is burned, the winner has one more win and the loser
/// one more loss. Either way both creatures are out of combat. What does not fit
/// its type is an overflow, and a winner's percentage over 100 an underflow.
pub open spec fn resolution(
    session: CombatSession,
    challenger: BeastAccount,
    opponent: BeastAccount,
    config: ProgramConfig,
    resolver: Identity,
    current_time: i64,
) -> Result<Resolution, ZenBeastsError> {
    let pot = total_pot(session.wager_amount);
    let payout = share(pot as u64, config.combat_winner_percentage);
    let challenger_won = session.status == CombatStatus::ChallengerWon;
    let winner = if challenger_won {
        challenger
    } else {
        opponent
    };
    let loser = if challenger_won {
        opponent
    } else {
        challenger
    };
    if session.status == CombatStatus::Active {
        Err(ZenBeastsError::InvalidCombatSession)
    } else if resolver != session.challenger_owner && resolver != session.opponent_owner {
        Err(ZenBeastsError::NotCombatParticipant)
    } else if pot > u64::MAX {
        Err(ZenBeastsError::ArithmeticOverflow)
    } else if session.status == CombatStatus::Draw {
        Ok(
            Resolution {
                event: CombatResolved {
                    session_id: session.session_id,
                    winner: None,
                    total_pot: pot as u64,
                    winner_payout: 0,
                    burned_amount: 0,
                    timestamp: current_time,
                },
                settlement: Settlement {
                    to_challenger: Some(session.wager_amount),
                    to_opponent: Some(session.wager_amount),
                    burned: 0,
                },
                challenger: after_fight(challenger, false, false),
                opponent: after_fight(opponent, false, false),
            },
        )
    } else if pot * config.combat_winner_percentage > u64::MAX {
        Err(ZenBeastsError::ArithmeticOverflow)
    } else if payout > pot {
        Err(ZenBeastsError::ArithmeticUnderflow)
    } else if winner.combat_stats.wins == u32::MAX || loser.combat_stats.losses == u32::MAX {
        Err(ZenBeastsError::ArithmeticOverflow)
    } else {
        Ok(
            Resolution {
                event: CombatResolved {
                    session_id: session.session_id,
                    winner: session.winner(),
                    total_pot: pot as u64,
                    winner_payout: payout as u64,
                    burned_amount: (pot - payout) as u64,
                    timestamp: current_time,
                },
                settlement: Settlement {
                    to_challenger: if challenger_won {
                        Some(payout as u64)
                    } else {
                        None
                    },
                    to_opponent: if challenger_won {
                        None
                    } else {
                        Some(payout as u64)
                    },
                    burned: (pot - payout) as u64,
                },
                challenger: after_fight(challenger, challenger_won, !challenger_won),
                opponent: after_fight(opponent, !challenger_won, challenger_won),
            },
        )
    }
}

/// Every settlement hands out the whole pot, no more and no less, pays both sides
/// after a draw and the winner alone otherwise, and leaves both creatures out of
/// combat and otherwise sound if they were.
pub proof fn lemma_resolution_conserves_pot(
    session: CombatSession,
    challenger: BeastAccount,
    opponent: BeastAccount,
    config: ProgramConfig,
    resolver: Identity,
    current_time: i64,
)
    ensures
        resolution(session, challenger, opponent, config, resolver, current_time) matches Ok(
            done,
        ) ==> {
            &&& paid(done.settlement.to_challenger) + paid(done.settlement.to_opponent)
                + done.settlement.burned == total_pot(session.wager_amount)
            &&& done.settlement.to_challenger is Some <==> session.status
                != CombatStatus::OpponentWon
            &&& done.settlement.to_opponent is Some <==> session.status
                != CombatStatus::ChallengerWon
            &&& !done.challenger.combat_stats.in_combat
            &&& !done.opponent.combat_stats.in_combat
            &&& challenger.wf() ==> done.challenger.wf()
            &&& opponent.wf() ==> done.opponent.wf()
        },
{
}

/// Settles a finished fight: says what leaves the escrow and for whom, counts the
/// win and the loss, and takes both creatures out of combat. Where it refuses,
/// nothing is changed.
pub fn handler(
    session: &CombatSession,
    challenger_beast: &mut BeastAccount,
    opponent_beast: &mut BeastAccount,
    config: &ProgramConfig,
    resolver: Identity,
    current_time: i64,
) -> (r: Result<(CombatResolved, Settlement), ZenBeastsError>)
    ensures
        match resolution(
            *session,
            *old(challenger_beast),
            *old(opponent_beast),
            *config,
            resolver,
            current_time,
        ) {
            Ok(done) => {
                &&& r == Ok::<(CombatResolved, Settlement), ZenBeastsError>(
                    (done.event, done.settlement),
                )
                &&& *final(challenger_beast) == done.challenger
                &&& *final(opponent_beast) == done.opponent
            },
            Err(e) => {
                &&& r == Err::<(CombatResolved, Settlement), ZenBeastsError>(e)
                &&& *final(challenger_beast) == *old(challenger_beast)
                &&& *final(opponent_beast) == *old(opponent_beast)
            },
        },
{
    if !session.is_finished() {
        return Err(ZenBeastsError::InvalidCombatSession);
    }
    if resolver != session.challenger_owner && resolver != session.opponent_owner {
        return Err(ZenBeastsError::NotCombatParticipant);
    }
    let total_pot = match session.wager_amount.checked_mul(2) {
        Some(pot) => pot,
        None => {
            return Err(ZenBeastsError::ArithmeticOverflow);
        },
    };
    let (event, settlement) = match session.status {
        CombatStatus::Draw => {
            (
                CombatResolved {
                    session_id: session.session_id,
                    winner: None,
                    total_pot,
                    winner_payout: 0,
                    burned_amount: 0,
                    timestamp: current_time,
                },
                Settlement {
                    to_challenger: Some(session.wager_amount),
                    to_opponent: Some(session.wager_amount),
                    burned: 0,
                },
            )
        },
        _ => {
            let challenger_won = session.status == CombatStatus::ChallengerWon;
            let product = match total_pot.checked_mul(config.combat_winner_percentage as u64) {
                Some(p) => p,
                None => {
                    return Err(ZenBeastsError::ArithmeticOverflow);
                },
            };
            let winner_amount = product / 100;
            let burn_amount = match total_pot.checked_sub(winner_amount) {
                Some(b) => b,
                None => {
                    return Err(ZenBeastsError::ArithmeticUnderflow);
                },
            };
            if challenger_won {
                if challenger_beast.combat_stats.wins == u32::MAX
                    || opponent_beast.combat_stats.losses == u32::MAX {
                    return Err(ZenBeastsError::ArithmeticOverflow);
                }
                challenger_beast.combat_stats.wins += 1;
                opponent_beast.combat_stats.losses += 1;
            } else {
                if opponent_beast.combat_stats.wins == u32::MAX
                    || challenger_beast.combat_stats.losses == u32::MAX {
                    return Err(ZenBeastsError::ArithmeticOverflow);
                }
                opponent_beast.combat_stats.wins += 1;
                challenger_beast.combat_stats.losses += 1;
            }
            (
                CombatResolved {
                    session_id: session.session_id,
                    winner: session.get_winner(),
                    total_pot,
                    winner_payout: winner_amount,
                    burned_amount: burn_amount,
                    timestamp: current_time,
                },
                Settlement {
                    to_challenger: if challenger_won {
                        Some(winner_amount)
                    } else {
                        None
                    },
                    to_opponent: if challenger_won {
                        None
                    } else {
                        Some(winner_amount)
                    },
                    burned: burn_amount,
                },
            )
        },
    };
    challenger_beast.combat_stats.in_combat = false;
    opponent_beast.combat_stats.in_combat = false;
    Ok((event, settlement))
}

} // verus!
