use vstd::prelude::*;
use crate::identity::Identity;
use crate::instructions::breed_beasts::breeding;
use crate::instructions::claim_rewards::claim;
use crate::instructions::create_beast::creation;
use crate::instructions::execute_combat_turn::turn;
use crate::instructions::initiate_combat::opening;
use crate::instructions::perform_activity::activity;
use crate::instructions::resolve_combat::resolution;
use crate::instructions::unlock_ability::unlocking;
use crate::instructions::update_beast_owner::transfer;
use crate::instructions::upgrade_ability::ability_upgrade;
use crate::instructions::upgrade_trait::upgrade;
use crate::state::beast_account::BeastAccount;
use crate::state::combat_session::CombatSession;
use crate::state::program_config::ProgramConfig;

verus! {

/// Whether a creature is in a fight that has not been settled.
pub open spec fn in_combat(beast: BeastAccount) -> bool {
    beast.combat_stats.in_combat
}

/// A creature comes into being out of combat, whether it is created or bred.
pub proof fn lemma_born_out_of_combat(
    parent_a: BeastAccount,
    parent_b: BeastAccount,
    config: ProgramConfig,
    payer: Identity,
    mint: Identity,
    bump: u8,
    fee_mint: Identity,
    zen_mint: Identity,
    name: Seq<char>,
    uri: String,
    zen_amount: u64,
    current_time: i64,
    traits: [u8; 10],
)
    ensures
        creation(config, mint, payer, bump, name, uri, current_time, traits) matches Ok(made)
            ==> !in_combat(made.beast),
        breeding(
            parent_a,
            parent_b,
            config,
            payer,
            mint,
            bump,
            fee_mint,
            zen_mint,
            name,
            uri,
            zen_amount,
            current_time,
            traits,
        ) matches Ok(done) ==> !in_combat(done.child),
{
}

/// Only the opening of a fight puts a creature in combat, and it puts both in:
/// it takes creatures that are out of combat and no others.
pub proof fn lemma_opening_sets_in_combat(
    challenger: BeastAccount,
    opponent: BeastAccount,
    config: ProgramConfig,
    challenger_owner: Identity,
    challenger_balance: u64,
    session_id: u64,
    wager_amount: u64,
    bump: u8,
    current_time: i64,
    seed: u64,
)
    ensures
        opening(
            challenger,
            opponent,
            config,
            challenger_owner,
            challenger_balance,
            session_id,
            wager_amount,
            bump,
            current_time,
            seed,
        ) matches Ok(opened) ==> {
            &&& !in_combat(challenger)
            &&& !in_combat(opponent)
            &&& in_combat(opened.challenger)
            &&& in_combat(opened.opponent)
        },
{
}

/// Only the settlement of a fight takes a creature out of combat, and it takes
/// both out.
pub proof fn lemma_resolution_clears_in_combat(
    session: CombatSession,
    challenger: BeastAccount,
    opponent: BeastAccount,
    config: ProgramConfig,
    resolver: Identity,
    current_time: i64,
)
    ensures
        resolution(session, challenger, opponent, config, resolver, current_time) matches Ok(
            done,
        ) ==> !in_combat(done.challenger) && !in_combat(done.opponent),
{
}

/// Every other operation leaves a creature in or out of combat as it was: a turn
/// of a fight, an activity, a claim, an upgrade of a trait or of an ability, the
/// unlocking of an ability, a change of hands, and breeding for both parents.
pub proof fn lemma_other_operations_keep_in_combat(
    beast: BeastAccount,
    other: BeastAccount,
    session: CombatSession,
    config: ProgramConfig,
    who: Identity,
    balance: u64,
    index: u8,
    ability_id: u8,
    activity_type: u8,
    effect_amount: u16,
    child_mint: Identity,
    bump: u8,
    fee_mint: Identity,
    zen_mint: Identity,
    name: Seq<char>,
    uri: String,
    zen_amount: u64,
    traits: [u8; 10],
    current_time: i64,
)
    ensures
        turn(
            session,
            beast,
            other,
            config,
            who,
            balance,
            index,
            current_time,
            effect_amount,
        ) matches Ok(taken) ==> in_combat(taken.challenger) == in_combat(beast) && in_combat(
            taken.opponent,
        ) == in_combat(other),
        activity(beast, config, who, activity_type, current_time) matches Ok(done) ==> in_combat(
            done.beast,
        ) == in_combat(beast),
        claim(beast, config, who, balance, current_time) matches Ok(done) ==> in_combat(done.beast)
            == in_combat(beast),
        upgrade(beast, config, who, balance, index) matches Ok(done) ==> in_combat(done.beast)
            == in_combat(beast),
        ability_upgrade(beast, config, who, balance, index, current_time) matches Ok(done)
            ==> in_combat(done.beast) == in_combat(beast),
        unlocking(beast, config, who, balance, index, ability_id, current_time) matches Ok(done)
            ==> in_combat(done.beast) == in_combat(beast),
        transfer(beast, who, current_time) matches Ok(done) ==> in_combat(done.beast) == in_combat(
            beast,
        ),
        breeding(
            beast,
            other,
            config,
            who,
            child_mint,
            bump,
            fee_mint,
            zen_mint,
            name,
            uri,
            zen_amount,
            current_time,
            traits,
        ) matches Ok(done) ==> in_combat(done.parent_a) == in_combat(beast) && in_combat(
            done.parent_b,
        ) == in_combat(other),
{
}

/// From the opening of a fight to its settlement both creatures are in combat:
/// the opening puts them in, no turn of the fight takes them out, and the
/// settlement does.
pub proof fn lemma_in_combat_from_opening_to_resolution(
    challenger: BeastAccount,
    opponent: BeastAccount,
    config: ProgramConfig,
    challenger_owner: Identity,
    challenger_balance: u64,
    session_id: u64,
    wager_amount: u64,
    bump: u8,
    opened_at: i64,
    seed: u64,
    executor: Identity,
    executor_balance: u64,
    ability_index: u8,
    turn_at: i64,
    effect_amount: u16,
    resolver: Identity,
    resolved_at: i64,
)
    ensures
        opening(
            challenger,
            opponent,
            config,
            challenger_owner,
            challenger_balance,
            session_id,
            wager_amount,
            bump,
            opened_at,
            seed,
        ) matches Ok(opened) ==> {
            &&& in_combat(opened.challenger) && in_combat(opened.opponent)
            &&& turn(
                opened.session,
                opened.challenger,
                opened.opponent,
                config,
                executor,
                executor_balance,
                ability_index,
                turn_at,
                effect_amount,
            ) matches Ok(taken) ==> {
                &&& in_combat(taken.challenger) && in_combat(taken.opponent)
                &&& resolution(
                    taken.session,
                    taken.challenger,
                    taken.opponent,
                    config,
                    resolver,
                    resolved_at,
                ) matches Ok(done) ==> !in_combat(done.challenger) && !in_combat(done.opponent)
            }
        },
{
}

} // verus!
