use vstd::prelude::*;
use crate::ConfigurationUpdated;
use crate::errors::ZenBeastsError;
use crate::identity::Identity;
use crate::state::program_config::ProgramConfig;
use crate::utils::randomness::{twos_complement, unsigned_time};

verus! {

/// The settings that an update asks to change, each with its new value.
#[derive(Clone, Copy, Debug, PartialEq, Eq)]
pub struct ConfigChanges {
    pub activity_cooldown: Option<i64>,
    pub breeding_cooldown: Option<i64>,
    pub max_breeding_count: Option<u8>,
    pub upgrade_base_cost: Option<u64>,
    pub upgrade_scaling_factor: Option<u64>,
    pub breeding_base_cost: Option<u64>,
    pub generation_multiplier: Option<u64>,
    pub reward_rate: Option<u64>,
    pub burn_percentage: Option<u8>,
    pub ability_unlock_cost: Option<u64>,
    pub ability_upgrade_cost: Option<u64>,
    pub combat_cooldown: Option<i64>,
    pub min_combat_wager: Option<u64>,
    pub max_combat_wager: Option<u64>,
    pub combat_turn_timeout: Option<i64>,
    pub combat_winner_percentage: Option<u8>,
}

/// What a record of a change holds: the setting's name, its value before and
/// after, and who changed it.
pub type ChangeRecord = (Seq<char>, u64, u64, Identity);

/// Why an update is refused, if it is: a cooldown of activity or breeding, a base
/// cost, the scaling factor or the reward rate that is not positive, or a
/// percentage over 100. The first of them in the order of [`ConfigChanges`]
/// decides.
pub open spec fn refusal(changes: ConfigChanges) -> Option<ZenBeastsError> {
    if changes.activity_cooldown matches Some(v) && v <= 0 {
        Some(ZenBeastsError::InvalidConfiguration)
    } else if changes.breeding_cooldown matches Some(v) && v <= 0 {
        Some(ZenBeastsError::InvalidConfiguration)
    } else if changes.upgrade_base_cost == Some(0u64) {
        Some(ZenBeastsError::InvalidConfiguration)
    } else if changes.upgrade_scaling_factor == Some(0u64) {
        Some(ZenBeastsError::InvalidConfiguration)
    } else if changes.breeding_base_cost == Some(0u64) {
        Some(ZenBeastsError::InvalidConfiguration)
    } else if changes.reward_rate == Some(0u64) {
        Some(ZenBeastsError::InvalidConfiguration)
    } else if changes.burn_percentage matches Some(v) && v > 100 {
        Some(ZenBeastsError::InvalidBurnPercentage)
    } else if changes.combat_winner_percentage matches Some(v) && v > 100 {
        Some(ZenBeastsError::InvalidConfiguration)
    } else {
        None
    }
}

/// The new value of a setting: the one asked for, else the old one.
pub open spec fn chosen<T>(asked: Option<T>, old: T) -> T {
    match asked {
        Some(v) => v,
        None => old,
    }
}

/// The configuration with the changes made.
pub open spec fn applied(config: ProgramConfig, changes: ConfigChanges) -> ProgramConfig {
    ProgramConfig {
        activity_cooldown: chosen(changes.activity_cooldown, config.activity_cooldown),
        breeding_cooldown: chosen(changes.breeding_cooldown, config.breeding_cooldown),
        max_breeding_count: chosen(changes.max_breeding_count, config.max_breeding_count),
        upgrade_base_cost: chosen(changes.upgrade_base_cost, config.upgrade_base_cost),
        upgrade_scaling_factor: chosen(
            changes.upgrade_scaling_factor,
            config.upgrade_scaling_factor,
        ),
        breeding_base_cost: chosen(changes.breeding_base_cost, config.breeding_base_cost),
        generation_multiplier: chosen(changes.generation_multiplier, config.generation_multiplier),
        reward_rate: chosen(changes.reward_rate, config.reward_rate),
        burn_percentage: chosen(changes.burn_percentage, config.burn_percentage),
        ability_unlock_cost: chosen(changes.ability_unlock_cost, config.ability_unlock_cost),
        ability_upgrade_cost: chosen(changes.ability_upgrade_cost, config.ability_upgrade_cost),
        combat_cooldown: chosen(changes.combat_cooldown, config.combat_cooldown),
        min_combat_wager: chosen(changes.min_combat_wager, config.min_combat_wager),
        max_combat_wager: chosen(changes.max_combat_wager, config.max_combat_wager),
        combat_turn_timeout: chosen(changes.combat_turn_timeout, config.combat_turn_timeout),
        combat_winner_percentage: chosen(
            changes.combat_winner_percentage,
            config.combat_winner_percentage,
        ),
        ..config
    }
}

/// The record of one setting: none if no change was asked for.
pub open spec fn record_of(
    parameter: Seq<char>,
    old_value: u64,
    asked: Option<u64>,
    updated_by: Identity,
) -> Seq<ChangeRecord> {
    match asked {
        Some(new_value) => seq![(parameter, old_value, new_value, updated_by)],
        None => seq![],
    }
}

/// A duration that was asked for, read as unsigned.
pub open spec fn unsigned(asked: Option<i64>) -> Option<u64> {
    match asked {
        Some(v) => Some(twos_complement(v)),
        None => None,
    }
}

/// A small number that was asked for, as a 64-bit one.
pub open spec fn widened(asked: Option<u8>) -> Option<u64> {
    match asked {
        Some(v) => Some(v as u64),
        None => None,
    }
}

/// The records of an update: one per setting that a change was asked for, in the
/// order of [`ConfigChanges`], with durations read as unsigned.
pub open spec fn records_of(
    config: ProgramConfig,
    changes: ConfigChanges,
    updated_by: Identity,
) -> Seq<ChangeRecord> {
    record_of(
        "activity_cooldown"@,
        twos_complement(config.activity_cooldown),
        unsigned(changes.activity_cooldown),
        updated_by,
    ) + record_of(
        "breeding_cooldown"@,
        twos_complement(config.breeding_cooldown),
        unsigned(changes.breeding_cooldown),
        updated_by,
    ) + record_of(
        "max_breeding_count"@,
        config.max_breeding_count as u64,
        widened(changes.max_breeding_count),
        updated_by,
    ) + record_of(
        "upgrade_base_cost"@,
        config.upgrade_base_cost,
        changes.upgrade_base_cost,
        updated_by,
    ) + record_of(
        "upgrade_scaling_factor"@,
        config.upgrade_scaling_factor,
        changes.upgrade_scaling_factor,
        updated_by,
    ) + record_of(
        "breeding_base_cost"@,
        config.breeding_base_cost,
        changes.breeding_base_cost,
        updated_by,
    ) + record_of(
        "generation_multiplier"@,
        config.generation_multiplier,
        changes.generation_multiplier,
        updated_by,
    ) + record_of("reward_rate"@, config.reward_rate, changes.reward_rate, updated_by) + record_of(
        "burn_percentage"@,
        config.burn_percentage as u64,
        widened(changes.burn_percentage),
        updated_by,
    ) + record_of(
        "ability_unlock_cost"@,
        config.ability_unlock_cost,
        changes.ability_unlock_cost,
        updated_by,
    ) + record_of(
        "ability_upgrade_cost"@,
        config.ability_upgrade_cost,
        changes.ability_upgrade_cost,
        updated_by,
    ) + record_of(
        "combat_cooldown"@,
        twos_complement(config.combat_cooldown),
        unsigned(changes.combat_cooldown),
        updated_by,
    ) + record_of(
        "min_combat_wager"@,
        config.min_combat_wager,
        changes.min_combat_wager,
        updated_by,
    ) + record_of(
        "max_combat_wager"@,
        config.max_combat_wager,
        changes.max_combat_wager,
        updated_by,
    ) + record_of(
        "combat_turn_timeout"@,
        twos_complement(config.combat_turn_timeout),
        unsigned(changes.combat_turn_timeout),
        updated_by,
    ) + record_of(
        "combat_winner_percentage"@,
        config.combat_winner_percentage as u64,
        widened(changes.combat_winner_percentage),
        updated_by,
    )
}

/// What a list of records holds, record by record.
pub open spec fn contents(events: Seq<ConfigurationUpdated>) -> Seq<ChangeRecord> {
    events.map_values(|e: ConfigurationUpdated| e@)
}

/// An update that is not refused leaves a sound configuration sound.
pub proof fn lemma_update_keeps_wf(config: ProgramConfig, changes: ConfigChanges)
    requires
        config.wf(),
        refusal(changes) is None,
    ensures
        applied(config, changes).wf(),
{
}

/// An update that asks for nothing changes nothing and records nothing.
pub proof fn lemma_empty_update(config: ProgramConfig, updated_by: Identity)
    ensures
        applied(config, no_changes()) == config,
        records_of(config, no_changes(), updated_by) =~= Seq::<ChangeRecord>::empty(),
        refusal(no_changes()) is None,
{
}

/// The update that asks for nothing.
pub open spec fn no_changes() -> ConfigChanges {
    ConfigChanges {
        activity_cooldown: None,
        breeding_cooldown: None,
        max_breeding_count: None,
        upgrade_base_cost: None,
        upgrade_scaling_factor: None,
        breeding_base_cost: None,
        generation_multiplier: None,
        reward_rate: None,
        burn_percentage: None,
        ability_unlock_cost: None,
        ability_upgrade_cost: None,
        combat_cooldown: None,
        min_combat_wager: None,
        max_combat_wager: None,
        combat_turn_timeout: None,
        combat_winner_percentage: None,
    }
}

/// Checks the values that an update asks for.
pub fn validate_changes(changes: &ConfigChanges) -> (r: Result<(), ZenBeastsError>)
    ensures
        match refusal(*changes) {
            Some(e) => r == Err::<(), ZenBeastsError>(e),
            None => r == Ok::<(), ZenBeastsError>(()),
        },
{
    if let Some(v) = changes.activity_cooldown {
        if v <= 0 {
            return Err(ZenBeastsError::InvalidConfiguration);
        }
    }
    if let Some(v) = changes.breeding_cooldown {
        if v <= 0 {
            return Err(ZenBeastsError::InvalidConfiguration);
        }
    }
    if let Some(v) = changes.upgrade_base_cost {
        if v == 0 {
            return Err(ZenBeastsError::InvalidConfiguration);
        }
    }
    if let Some(v) = changes.upgrade_scaling_factor {
        if v == 0 {
            return Err(ZenBeastsError::InvalidConfiguration);
        }
    }
    if let Some(v) = changes.breeding_base_cost {
        if v == 0 {
            return Err(ZenBeastsError::InvalidConfiguration);
        }
    }
    if let Some(v) = changes.reward_rate {
        if v == 0 {
            return Err(ZenBeastsError::InvalidConfiguration);
        }
    }
    if let Some(v) = changes.burn_percentage {
        if v > 100 {
            return Err(ZenBeastsError::InvalidBurnPercentage);
        }
    }
    if let Some(v) = changes.combat_winner_percentage {
        if v > 100 {
            return Err(ZenBeastsError::InvalidConfiguration);
        }
    }
    Ok(())
}

/// Adds the record of one setting to the list, if a change was asked for.
fn record(
    events: &mut Vec<ConfigurationUpdated>,
    parameter: &str,
    old_value: u64,
    asked: Option<u64>,
    updated_by: Identity,
)
    ensures
        contents(final(events)@) == contents(old(events)@) + record_of(
            parameter@,
            old_value,
            asked,
            updated_by,
        ),
{
    match asked {
        Some(new_value) => {
            let event = ConfigurationUpdated {
                parameter: parameter.to_owned(),
                old_value,
                new_value,
                updated_by,
            };
            events.push(event);
            assert(contents(events@) =~= contents(old(events)@) + record_of(
                parameter@,
                old_value,
                asked,
                updated_by,
            ));
        },
        None => {
            assert(contents(events@) =~= contents(old(events)@) + record_of(
                parameter@,
                old_value,
                asked,
                updated_by,
            ));
        },
    }
}

/// A duration that was asked for, read as unsigned.
fn unsigned_option(asked: Option<i64>) -> (r: Option<u64>)
    ensures
        r == unsigned(asked),
{
    match asked {
        Some(v) => Some(unsigned_time(v)),
        None => None,
    }
}

/// A small number that was asked for, as a 64-bit one.
fn widened_option(asked: Option<u8>) -> (r: Option<u64>)
    ensures
        r == widened(asked),
{
    match asked {
        Some(v) => Some(v as u64),
        None => None,
    }
}

/// Lists a record of each change that an update asks for.
pub fn list_changes(
    config: &ProgramConfig,
    updated_by: Identity,
    changes: &ConfigChanges,
) -> (events: Vec<ConfigurationUpdated>)
    ensures
        contents(events@) == records_of(*config, *changes, updated_by),
{
    let mut events: Vec<ConfigurationUpdated> = Vec::new();
    assert(contents(events@) =~= Seq::<ChangeRecord>::empty());
    record(
        &mut events,
        "activity_cooldown",
        unsigned_time(config.activity_cooldown),
        unsigned_option(changes.activity_cooldown),
        updated_by,
    );
    assert(contents(events@) =~= record_of(
        "activity_cooldown"@,
        twos_complement(config.activity_cooldown),
        unsigned(changes.activity_cooldown),
        updated_by,
    ));
    record(
        &mut events,
        "breeding_cooldown",
        unsigned_time(config.breeding_cooldown),
        unsigned_option(changes.breeding_cooldown),
        updated_by,
    );
    record(
        &mut events,
        "max_breeding_count",
        config.max_breeding_count as u64,
        widened_option(changes.max_breeding_count),
        updated_by,
    );
    record(
        &mut events,
        "upgrade_base_cost",
        config.upgrade_base_cost,
        changes.upgrade_base_cost,
        updated_by,
    );
    record(
        &mut events,
        "upgrade_scaling_factor",
        config.upgrade_scaling_factor,
        changes.upgrade_scaling_factor,
        updated_by,
    );
    record(
        &mut events,
        "breeding_base_cost",
        config.breeding_base_cost,
        changes.breeding_base_cost,
        updated_by,
    );
    record(
        &mut events,
        "generation_multiplier",
        config.generation_multiplier,
        changes.generation_multiplier,
        updated_by,
    );
    record(&mut events, "reward_rate", config.reward_rate, changes.reward_rate, updated_by);
    record(
        &mut events,
        "burn_percentage",
        config.burn_percentage as u64,
        widened_option(changes.burn_percentage),
        updated_by,
    );
    record(
        &mut events,
        "ability_unlock_cost",
        config.ability_unlock_cost,
        changes.ability_unlock_cost,
        updated_by,
    );
    record(
        &mut events,
        "ability_upgrade_cost",
        config.ability_upgrade_cost,
        changes.ability_upgrade_cost,
        updated_by,
    );
    record(
        &mut events,
        "combat_cooldown",
        unsigned_time(config.combat_cooldown),
        unsigned_option(changes.combat_cooldown),
        updated_by,
    );
    record(
        &mut events,
        "min_combat_wager",
        config.min_combat_wager,
        changes.min_combat_wager,
        updated_by,
    );
    record(
        &mut events,
        "max_combat_wager",
        config.max_combat_wager,
        changes.max_combat_wager,
        updated_by,
    );
    record(
        &mut events,
        "combat_turn_timeout",
        unsigned_time(config.combat_turn_timeout),
        unsigned_option(changes.combat_turn_timeout),
        updated_by,
    );
    record(
        &mut events,
        "combat_winner_percentage",
        config.combat_winner_percentage as u64,
        widened_option(changes.combat_winner_percentage),
        updated_by,
    );
    events
}

/// The new value of a setting: the one asked for, else the old one.
fn pick<T: Copy>(asked: Option<T>, old: T) -> (value: T)
    ensures
        value == chosen(asked, old),
{
    match asked {
        Some(v) => v,
        None => old,
    }
}

/// The configuration with the changes made.
pub fn changed(config: &ProgramConfig, changes: &ConfigChanges) -> (after: ProgramConfig)
    ensures
        after == applied(*config, *changes),
{
    ProgramConfig {
        activity_cooldown: pick(changes.activity_cooldown, config.activity_cooldown),
        breeding_cooldown: pick(changes.breeding_cooldown, config.breeding_cooldown),
        max_breeding_count: pick(changes.max_breeding_count, config.max_breeding_count),
        upgrade_base_cost: pick(changes.upgrade_base_cost, config.upgrade_base_cost),
        upgrade_scaling_factor: pick(changes.upgrade_scaling_factor, config.upgrade_scaling_factor),
        breeding_base_cost: pick(changes.breeding_base_cost, config.breeding_base_cost),
        generation_multiplier: pick(changes.generation_multiplier, config.generation_multiplier),
        reward_rate: pick(changes.reward_rate, config.reward_rate),
        burn_percentage: pick(changes.burn_percentage, config.burn_percentage),
        ability_unlock_cost: pick(changes.ability_unlock_cost, config.ability_unlock_cost),
        ability_upgrade_cost: pick(changes.ability_upgrade_cost, config.ability_upgrade_cost),
        combat_cooldown: pick(changes.combat_cooldown, config.combat_cooldown),
        min_combat_wager: pick(changes.min_combat_wager, config.min_combat_wager),
        max_combat_wager: pick(changes.max_combat_wager, config.max_combat_wager),
        combat_turn_timeout: pick(changes.combat_turn_timeout, config.combat_turn_timeout),
        combat_winner_percentage: pick(changes.combat_winner_percentage, config.combat_winner_percentage),
        ..*config
    }
}

/// Makes the changes that an update asks for, and lists a record of each. It
/// refuses the whole update if one value is not allowed, and then changes nothing.
pub fn apply_changes(
    config: &mut ProgramConfig,
    updated_by: Identity,
    changes: &ConfigChanges,
) -> (r: Result<Vec<ConfigurationUpdated>, ZenBeastsError>)
    ensures
        match refusal(*changes) {
            Some(e) => {
                &&& r == Err::<Vec<ConfigurationUpdated>, ZenBeastsError>(e)
                &&& *final(config) == *old(config)
            },
            None => {
                &&& r matches Ok(events) && contents(events@) == records_of(
                    *old(config),
                    *changes,
                    updated_by,
                )
                &&& *final(config) == applied(*old(config), *changes)
            },
        },
{
    match validate_changes(changes) {
        Ok(_) => {},
        Err(e) => {
            return Err(e);
        },
    }
    let events = list_changes(config, updated_by, changes);
    *config = changed(config, changes);
    Ok(events)
}

/// Changes the settings for which a new value is given, and lists a record of each
/// change. It refuses the whole update if one value is not allowed, and then
/// changes nothing.
pub fn handler(
    config: &mut ProgramConfig,
    updated_by: Identity,
    activity_cooldown: Option<i64>,
    breeding_cooldown: Option<i64>,
    max_breeding_count: Option<u8>,
    upgrade_base_cost: Option<u64>,
    upgrade_scaling_factor: Option<u64>,
    breeding_base_cost: Option<u64>,
    generation_multiplier: Option<u64>,
    reward_rate: Option<u64>,
    burn_percentage: Option<u8>,
    ability_unlock_cost: Option<u64>,
    ability_upgrade_cost: Option<u64>,
    combat_cooldown: Option<i64>,
    min_combat_wager: Option<u64>,
    max_combat_wager: Option<u64>,
    combat_turn_timeout: Option<i64>,
    combat_winner_percentage: Option<u8>,
) -> (r: Result<Vec<ConfigurationUpdated>, ZenBeastsError>)
    ensures
        ({
            let changes = ConfigChanges {
                activity_cooldown,
                breeding_cooldown,
                max_breeding_count,
                upgrade_base_cost,
                upgrade_scaling_factor,
                breeding_base_cost,
                generation_multiplier,
                reward_rate,
                burn_percentage,
                ability_unlock_cost,
                ability_upgrade_cost,
                combat_cooldown,
                min_combat_wager,
                max_combat_wager,
                combat_turn_timeout,
                combat_winner_percentage,
            };
            match refusal(changes) {
                Some(e) => {
                    &&& r == Err::<Vec<ConfigurationUpdated>, ZenBeastsError>(e)
                    &&& *final(config) == *old(config)
                },
                None => {
                    &&& r matches Ok(events) && contents(events@) == records_of(
                        *old(config),
                        changes,
                        updated_by,
                    )
                    &&& *final(config) == applied(*old(config), changes)
                },
            }
        }),
{
    let changes = ConfigChanges {
        activity_cooldown,
        breeding_cooldown,
        max_breeding_count,
        upgrade_base_cost,
        upgrade_scaling_factor,
        breeding_base_cost,
        generation_multiplier,
        reward_rate,
        burn_percentage,
        ability_unlock_cost,
        ability_upgrade_cost,
        combat_cooldown,
        min_combat_wager,
        max_combat_wager,
        combat_turn_timeout,
        combat_winner_percentage,
    };
    apply_changes(config, updated_by, &changes)
}

} // verus!
