use vstd::prelude::*;
use crate::errors::ZenBeastsError;
use crate::state::beast_account::BeastAccount;

verus! {

/// `x` brought into the range of a signed 64-bit timestamp.
pub open spec fn saturate(x: int) -> int {
    if x > i64::MAX {
        i64::MAX as int
    } else if x < i64::MIN {
        i64::MIN as int
    } else {
        x
    }
}

/// Seconds from `last` to `now`. Where `last` lies after `now`, or the difference
/// does not fit a timestamp, no time counts as elapsed.
pub open spec fn elapsed(now: i64, last: i64) -> int {
    if last <= now && now - last <= i64::MAX {
        now - last
    } else {
        0
    }
}

/// Whether an action that was last done at `last` may be done again at `now`:
/// always if it was never done (`last` is 0), else once the cooldown has elapsed,
/// the moment it ends included.
pub open spec fn can_act(now: i64, last: i64, cooldown: i64) -> bool {
    last == 0 || elapsed(now, last) >= cooldown
}

/// The time at which a cooldown that started at `last` ends, saturating.
pub open spec fn cooldown_end(last: i64, cooldown: i64) -> int {
    saturate(last + cooldown)
}

/// Seconds at `now` until the cooldown that started at `last` ends: the end of
/// the cooldown less `now`, and 0 once it is over, computed with saturating
/// arithmetic.
pub open spec fn remaining(now: i64, last: i64, cooldown: i64) -> int {
    if saturate(cooldown_end(last, cooldown) - now) < 0 {
        0
    } else {
        saturate(cooldown_end(last, cooldown) - now)
    }
}

/// Where nothing overflows, what remains is the end of the cooldown less `now`,
/// and 0 once that is negative.
pub proof fn lemma_remaining_is_end_less_now(now: i64, last: i64, cooldown: i64)
    requires
        i64::MIN <= last + cooldown <= i64::MAX,
        i64::MIN <= last + cooldown - now <= i64::MAX,
    ensures
        remaining(now, last, cooldown) >= 0,
        last + cooldown - now >= 0 ==> remaining(now, last, cooldown) == last + cooldown - now,
        last + cooldown - now < 0 ==> remaining(now, last, cooldown) == 0,
{
}

/// A cooldown is over at the moment it ends.
pub proof fn lemma_can_act_at_end(last: i64, cooldown: i64, now: i64)
    requires
        now == last + cooldown,
    ensures
        can_act(now, last, cooldown),
{
}

/// One second before a cooldown ends it is still running, for an action that was
/// done before and a positive cooldown.
pub proof fn lemma_cannot_act_before_end(last: i64, cooldown: i64, now: i64)
    requires
        now == last + cooldown - 1,
        last != 0,
        cooldown > 0,
    ensures
        !can_act(now, last, cooldown),
{
}

/// For an action that was done before, at a time not before it: where it may be
/// done again, nothing remains of its cooldown; and with a cooldown whose end fits
/// a timestamp, the converse holds.
pub proof fn lemma_remaining_zero_when_ready(now: i64, last: i64, cooldown: i64)
    requires
        last != 0,
        last <= now,
        now - last <= i64::MAX,
    ensures
        can_act(now, last, cooldown) ==> remaining(now, last, cooldown) == 0,
        i64::MIN <= last + cooldown <= i64::MAX && remaining(now, last, cooldown) == 0 ==> can_act(
            now,
            last,
            cooldown,
        ),
{
}

/// Computes [`elapsed`].
pub fn time_elapsed(now: i64, last: i64) -> (seconds: i64)
    ensures
        seconds == elapsed(now, last),
{
    if last <= now {
        match now.checked_sub(last) {
            Some(d) => d,
            None => 0,
        }
    } else {
        0
    }
}

/// Computes [`can_act`].
pub fn cooldown_over(now: i64, last: i64, cooldown: i64) -> (ready: bool)
    ensures
        ready == can_act(now, last, cooldown),
{
    last == 0 || time_elapsed(now, last) >= cooldown
}

/// Computes [`cooldown_end`].
pub fn end_of_cooldown(last: i64, cooldown: i64) -> (end: i64)
    ensures
        end == cooldown_end(last, cooldown),
{
    match last.checked_add(cooldown) {
        Some(end) => end,
        None => if last > 0 {
            i64::MAX
        } else {
            i64::MIN
        },
    }
}

/// Computes [`remaining`].
pub fn time_remaining(now: i64, last: i64, cooldown: i64) -> (seconds: i64)
    ensures
        seconds == remaining(now, last, cooldown),
{
    let end = end_of_cooldown(last, cooldown);
    match end.checked_sub(now) {
        Some(left) => if left < 0 {
            0
        } else {
            left
        },
        None => if now < 0 {
            i64::MAX
        } else {
            0
        },
    }
}

/// Whether the creature may perform an activity at `current_time`.
pub fn can_perform_activity(beast: &BeastAccount, current_time: i64, cooldown_duration: i64) -> (ready: bool)
    ensures
        ready == can_act(current_time, beast.last_activity, cooldown_duration),
{
    cooldown_over(current_time, beast.last_activity, cooldown_duration)
}

/// Seconds until the creature may perform an activity again.
pub fn get_remaining_cooldown(beast: &BeastAccount, current_time: i64, cooldown_duration: i64) -> (seconds: i64)
    ensures
        seconds == remaining(current_time, beast.last_activity, cooldown_duration),
{
    time_remaining(current_time, beast.last_activity, cooldown_duration)
}

/// The time at which the creature's activity cooldown ends.
pub fn get_cooldown_end_time(beast: &BeastAccount, cooldown_duration: i64) -> (end: i64)
    ensures
        end == cooldown_end(beast.last_activity, cooldown_duration),
{
    end_of_cooldown(beast.last_activity, cooldown_duration)
}

/// Refuses with `CooldownActive` while the creature's activity cooldown runs.
pub fn require_not_in_cooldown(
    beast: &BeastAccount,
    current_time: i64,
    cooldown_duration: i64,
) -> (r: Result<(), ZenBeastsError>)
    ensures
        can_act(current_time, beast.last_activity, cooldown_duration) ==> r == Ok::<
            (),
            ZenBeastsError,
        >(()),
        !can_act(current_time, beast.last_activity, cooldown_duration) ==> r == Err::<
            (),
            ZenBeastsError,
        >(ZenBeastsError::CooldownActive),
{
    if can_perform_activity(beast, current_time, cooldown_duration) {
        Ok(())
    } else {
        Err(ZenBeastsError::CooldownActive)
    }
}

/// Whether the creature may breed at `current_time`.
pub fn can_breed(beast: &BeastAccount, current_time: i64, breeding_cooldown: i64) -> (ready: bool)
    ensures
        ready == can_act(current_time, beast.last_breeding, breeding_cooldown),
{
    cooldown_over(current_time, beast.last_breeding, breeding_cooldown)
}

/// Seconds until the creature may breed again.
pub fn get_remaining_breeding_cooldown(
    beast: &BeastAccount,
    current_time: i64,
    breeding_cooldown: i64,
) -> (seconds: i64)
    ensures
        seconds == remaining(current_time, beast.last_breeding, breeding_cooldown),
{
    time_remaining(current_time, beast.last_breeding, breeding_cooldown)
}

/// Refuses with `BreedingCooldownActive` while the creature's breeding cooldown runs.
pub fn require_not_in_breeding_cooldown(
    beast: &BeastAccount,
    current_time: i64,
    breeding_cooldown: i64,
) -> (r: Result<(), ZenBeastsError>)
    ensures
        can_act(current_time, beast.last_breeding, breeding_cooldown) ==> r == Ok::<
            (),
            ZenBeastsError,
        >(()),
        !can_act(current_time, beast.last_breeding, breeding_cooldown) ==> r == Err::<
            (),
            ZenBeastsError,
        >(ZenBeastsError::BreedingCooldownActive),
{
    if can_breed(beast, current_time, breeding_cooldown) {
        Ok(())
    } else {
        Err(ZenBeastsError::BreedingCooldownActive)
    }
}

} // verus!
