use vstd::prelude::*;
use crate::identity::Identity;

verus! {

/// Where a fight stands. All but `Active` are final.
#[derive(Clone, Copy, Debug, PartialEq, Eq, Structural)]
pub enum CombatStatus {
    Active,
    ChallengerWon,
    OpponentWon,
    Draw,
}

/// A wagered fight between two creatures.
#[derive(Clone, Copy, Debug, PartialEq, Eq)]
pub struct CombatSession {
    /// The number the fight was opened under.
    pub session_id: u64,
    /// The creature that opened the fight.
    pub challenger: Identity,
    /// The creature it fights.
    pub opponent: Identity,
    /// Who controls the challenger.
    pub challenger_owner: Identity,
    /// Who controls the opponent.
    pub opponent_owner: Identity,
    /// What each side stakes.
    pub wager_amount: u64,
    /// Turns taken. The challenger moves on even counts, the opponent on odd ones.
    pub turn_count: u8,
    /// The challenger's hit points after the last turn.
    pub challenger_hp: u16,
    /// The opponent's hit points after the last turn.
    pub opponent_hp: u16,
    /// Time of the last turn, or of the opening.
    pub last_turn_timestamp: i64,
    /// The seed that every turn's outcome is drawn from.
    pub combat_seed: u64,
    /// Where the fight stands.
    pub status: CombatStatus,
    /// Bump of the account's address.
    pub bump: u8,
}

impl CombatSession {
    /// A fight that is undecided after this many turns is a draw.
    pub const MAX_TURNS: u8 = 10;

    /// What holds of every fight that the game opened and advanced: while it is on,
    /// fewer turns than the maximum have been taken.
    pub open spec fn wf(&self) -> bool {
        self.status == CombatStatus::Active ==> self.turn_count < Self::MAX_TURNS
    }

    /// Whether the fight is still on.
    pub fn is_active(&self) -> (active: bool)
        ensures
            active == (self.status == CombatStatus::Active),
    {
        self.status == CombatStatus::Active
    }

    /// Whether the fight is over.
    pub fn is_finished(&self) -> (finished: bool)
        ensures
            finished == (self.status != CombatStatus::Active),
    {
        !self.is_active()
    }

    /// The creature that won, if one did.
    pub open spec fn winner(&self) -> Option<Identity> {
        match self.status {
            CombatStatus::ChallengerWon => Some(self.challenger),
            CombatStatus::OpponentWon => Some(self.opponent),
            _ => None,
        }
    }

    /// The creature that won, if one did.
    pub fn get_winner(&self) -> (winner: Option<Identity>)
        ensures
            winner == self.winner(),
    {
        match self.status {
            CombatStatus::ChallengerWon => Some(self.challenger),
            CombatStatus::OpponentWon => Some(self.opponent),
            _ => None,
        }
    }
}

} // verus!
