use vstd::prelude::*;
use crate::BeastTransferred;
use crate::errors::ZenBeastsError;
use crate::identity::Identity;
use crate::state::beast_account::BeastAccount;

verus! {

/// A creature that changed hands: the record of it, and the creature under its new
/// controller.
pub struct Transfer {
    pub event: BeastTransferred,
    pub beast: BeastAccount,
}

/// A change of hands: refused if the new controller is the old one. Nothing but
/// the controller changes.
pub open spec fn transfer(beast: BeastAccount, new_owner: Identity, current_time: i64) -> Result<
    Transfer,
    ZenBeastsError,
> {
    if beast.owner == new_owner {
        Err(ZenBeastsError::OwnerUnchanged)
    } else {
        Ok(
            Transfer {
                event: BeastTransferred {
                    beast: beast.mint,
                    from: beast.owner,
                    to: new_owner,
                    timestamp: current_time,
                },
                beast: BeastAccount { owner: new_owner, ..beast },
            },
        )
    }
}

/// A change of hands changes the controller and nothing else: the creature stays
/// sound, and in or out of combat as it was.
pub proof fn lemma_transfer_keeps_the_rest(beast: BeastAccount, new_owner: Identity, current_time: i64)
    ensures
        transfer(beast, new_owner, current_time) matches Ok(done) ==> {
            &&& done.beast.owner == new_owner
            &&& done.beast == (BeastAccount { owner: new_owner, ..beast })
            &&& done.beast.combat_stats == beast.combat_stats
            &&& beast.wf() ==> done.beast.wf()
        },
{
}

/// Hands the creature to its new controller. Where it refuses, nothing is changed.
pub fn handler(beast: &mut BeastAccount, new_owner: Identity, current_time: i64) -> (r: Result<
    BeastTransferred,
    ZenBeastsError,
>)
    ensures
        match transfer(*old(beast), new_owner, current_time) {
            Ok(done) => {
                &&& r == Ok::<BeastTransferred, ZenBeastsError>(done.event)
                &&& *final(beast) == done.beast
            },
            Err(e) => {
                &&& r == Err::<BeastTransferred, ZenBeastsError>(e)
                &&& *final(beast) == *old(beast)
            },
        },
{
    let old_owner = beast.owner;
    if old_owner == new_owner {
        return Err(ZenBeastsError::OwnerUnchanged);
    }
    beast.owner = new_owner;
    Ok(BeastTransferred { beast: beast.mint, from: old_owner, to: new_owner, timestamp: current_time })
}

} // verus!
