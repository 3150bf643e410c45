//! Owner-side configuration: timers, guardian slots, the cosmetic profile,
//! and the two-phase ownership handoff.

use vstd::prelude::*;

use crate::errors::GhostError;
use crate::state::DISPLAY_NAME_LEN;
use crate::state::GhostAccount;
use crate::state::GhostView;
use crate::state::IMAGE_URI_LEN;
use crate::state::Identity;
use crate::state::MAX_RECOVERY_WALLETS;
use crate::state::MIN_GRACE_PERIOD;
use crate::state::MIN_INTERVAL;

verus! {

/// How a profile update changes the record: owner-only; only the cosmetic
/// fields change.
pub open spec fn spec_set_ghost_profile(
    g: GhostView,
    caller: Identity,
    display_name: Seq<u8>,
    image_uri: Seq<u8>,
) -> (GhostView, Result<(), GhostError>) {
    if caller != g.owner {
        (g, Err(GhostError::Unauthorized))
    } else {
        (GhostView { display_name, image_uri, ..g }, Ok(()))
    }
}

/// The owner replaces the cosmetic display name and image reference.
pub fn set_ghost_profile(
    record: &mut GhostAccount,
    caller: Identity,
    display_name: Vec<u8>,
    image_uri: Vec<u8>,
) -> (r: Result<(), GhostError>)
    requires
        old(record)@.wf(),
        display_name@.len() == DISPLAY_NAME_LEN as int,
        image_uri@.len() == IMAGE_URI_LEN as int,
    ensures
        final(record)@ == spec_set_ghost_profile(old(record)@, caller, display_name@, image_uri@).0,
        r == spec_set_ghost_profile(old(record)@, caller, display_name@, image_uri@).1,
        final(record)@.wf(),
        old(record)@.executed ==> final(record)@.executed,
{
    if caller != record.owner {
        return Err(GhostError::Unauthorized);
    }
    record.display_name = display_name;
    record.image_uri = image_uri;
    proof {
        assert(record@ =~= spec_set_ghost_profile(
            old(record)@,
            caller,
            record@.display_name,
            record@.image_uri,
        ).0);
    }
    Ok(())
}

/// How initiating a handoff changes the record: current owner only, refused
/// once executed or when the target already is the owner; only the pending
/// owner changes — no single-phase transfer exists.
pub open spec fn spec_transfer_ownership(g: GhostView, caller: Identity, new_owner: Identity) -> (GhostView, Result<
    (),
    GhostError,
>) {
    if caller != g.owner {
        (g, Err(GhostError::Unauthorized))
    } else if g.executed {
        (g, Err(GhostError::GhostAlreadyExecuted))
    } else if new_owner == g.owner {
        (g, Err(GhostError::Unauthorized))
    } else {
        (GhostView { pending_owner: Some(new_owner), ..g }, Ok(()))
    }
}

/// The owner nominates a successor; nothing changes hands until the
/// successor accepts.
pub fn transfer_ownership(record: &mut GhostAccount, caller: Identity, new_owner: Identity) -> (r: Result<
    (),
    GhostError,
>)
    requires
        old(record)@.wf(),
    ensures
        final(record)@ == spec_transfer_ownership(old(record)@, caller, new_owner).0,
        r == spec_transfer_ownership(old(record)@, caller, new_owner).1,
        final(record)@.wf(),
        old(record)@.executed ==> final(record)@.executed,
{
    if caller != record.owner {
        return Err(GhostError::Unauthorized);
    }
    if record.executed {
        return Err(GhostError::GhostAlreadyExecuted);
    }
    if new_owner == record.owner {
        return Err(GhostError::Unauthorized);
    }
    record.pending_owner = Some(new_owner);
    proof {
        assert(record@ =~= spec_transfer_ownership(old(record)@, caller, new_owner).0);
    }
    Ok(())
}

/// How accepting a handoff changes the record: only the stored pending owner
/// may call; the owner role swaps and the pending slot clears.
pub open spec fn spec_accept_ownership(g: GhostView, caller: Identity) -> (GhostView, Result<
    (),
    GhostError,
>) {
    if g.pending_owner != Some(caller) {
        (g, Err(GhostError::NoPendingOwnerTransfer))
    } else {
        (GhostView { owner: caller, pending_owner: None, ..g }, Ok(()))
    }
}

/// The nominated successor takes the owner role.
pub fn accept_ownership(record: &mut GhostAccount, caller: Identity) -> (r: Result<
    (),
    GhostError,
>)
    requires
        old(record)@.wf(),
    ensures
        final(record)@ == spec_accept_ownership(old(record)@, caller).0,
        r == spec_accept_ownership(old(record)@, caller).1,
        final(record)@.wf(),
        old(record)@.executed ==> final(record)@.executed,
{
    let pending_matches: bool = match record.pending_owner {
        Some(p) => p == caller,
        None => false,
    };
    if !pending_matches {
        return Err(GhostError::NoPendingOwnerTransfer);
    }
    record.owner = caller;
    record.pending_owner = None;
    proof {
        assert(record@ =~= spec_accept_ownership(old(record)@, caller).0);
    }
    Ok(())
}

/// How a combined timer update changes the record: owner-only, both minimums
/// enforced before either field changes.
pub open spec fn spec_update_interval_and_grace(
    g: GhostView,
    caller: Identity,
    interval_seconds: i64,
    grace_period_seconds: i64,
) -> (GhostView, Result<(), GhostError>) {
    if caller != g.owner {
        (g, Err(GhostError::Unauthorized))
    } else if interval_seconds < MIN_INTERVAL {
        (g, Err(GhostError::IntervalTooShort))
    } else if grace_period_seconds < MIN_GRACE_PERIOD {
        (g, Err(GhostError::GracePeriodTooShort))
    } else {
        (GhostView { interval_seconds, grace_period_seconds, ..g }, Ok(()))
    }
}

/// The owner reconfigures both timers at once.
pub fn update_interval_and_grace(
    record: &mut GhostAccount,
    caller: Identity,
    interval_seconds: i64,
    grace_period_seconds: i64,
) -> (r: Result<(), GhostError>)
    requires
        old(record)@.wf(),
    ensures
        final(record)@ == spec_update_interval_and_grace(
            old(record)@,
            caller,
            interval_seconds,
            grace_period_seconds,
        ).0,
        r == spec_update_interval_and_grace(
            old(record)@,
            caller,
            interval_seconds,
            grace_period_seconds,
        ).1,
        final(record)@.wf(),
        old(record)@.executed ==> final(record)@.executed,
{
    if caller != record.owner {
        return Err(GhostError::Unauthorized);
    }
    if interval_seconds < MIN_INTERVAL {
        return Err(GhostError::IntervalTooShort);
    }
    if grace_period_seconds < MIN_GRACE_PERIOD {
        return Err(GhostError::GracePeriodTooShort);
    }
    record.interval_seconds = interval_seconds;
    record.grace_period_seconds = grace_period_seconds;
    proof {
        assert(record@ =~= spec_update_interval_and_grace(
            old(record)@,
            caller,
            interval_seconds,
            grace_period_seconds,
        ).0);
    }
    Ok(())
}

/// How an interval update changes the record: owner-only, minimum enforced.
pub open spec fn spec_update_interval(g: GhostView, caller: Identity, interval_seconds: i64) -> (GhostView, Result<
    (),
    GhostError,
>) {
    if caller != g.owner {
        (g, Err(GhostError::Unauthorized))
    } else if interval_seconds < MIN_INTERVAL {
        (g, Err(GhostError::IntervalTooShort))
    } else {
        (GhostView { interval_seconds, ..g }, Ok(()))
    }
}

/// The owner reconfigures the heartbeat interval.
pub fn update_interval(record: &mut GhostAccount, caller: Identity, interval_seconds: i64) -> (r: Result<
    (),
    GhostError,
>)
    requires
        old(record)@.wf(),
    ensures
        final(record)@ == spec_update_interval(old(record)@, caller, interval_seconds).0,
        r == spec_update_interval(old(record)@, caller, interval_seconds).1,
        final(record)@.wf(),
        old(record)@.executed ==> final(record)@.executed,
{
    if caller != record.owner {
        return Err(GhostError::Unauthorized);
    }
    if interval_seconds < MIN_INTERVAL {
        return Err(GhostError::IntervalTooShort);
    }
    record.interval_seconds = interval_seconds;
    proof {
        assert(record@ =~= spec_update_interval(old(record)@, caller, interval_seconds).0);
    }
    Ok(())
}

/// How a grace-period update changes the record: owner-only, minimum
/// enforced.
pub open spec fn spec_update_grace_period(
    g: GhostView,
    caller: Identity,
    grace_period_seconds: i64,
) -> (GhostView, Result<(), GhostError>) {
    if caller != g.owner {
        (g, Err(GhostError::Unauthorized))
    } else if grace_period_seconds < MIN_GRACE_PERIOD {
        (g, Err(GhostError::GracePeriodTooShort))
    } else {
        (GhostView { grace_period_seconds, ..g }, Ok(()))
    }
}

/// The owner reconfigures the grace period.
pub fn update_grace_period(record: &mut GhostAccount, caller: Identity, grace_period_seconds: i64) -> (r: Result<
    (),
    GhostError,
>)
    requires
        old(record)@.wf(),
    ensures
        final(record)@ == spec_update_grace_period(old(record)@, caller, grace_period_seconds).0,
        r == spec_update_grace_period(old(record)@, caller, grace_period_seconds).1,
        final(record)@.wf(),
        old(record)@.executed ==> final(record)@.executed,
{
    if caller != record.owner {
        return Err(GhostError::Unauthorized);
    }
    if grace_period_seconds < MIN_GRACE_PERIOD {
        return Err(GhostError::GracePeriodTooShort);
    }
    record.grace_period_seconds = grace_period_seconds;
    proof {
        assert(record@ =~= spec_update_grace_period(old(record)@, caller, grace_period_seconds).0);
    }
    Ok(())
}

/// How a guardian-slot update changes the record: owner-only, the slot index
/// must exist; sets or vacates exactly that slot.
pub open spec fn spec_update_recovery_wallet(
    g: GhostView,
    caller: Identity,
    index: u8,
    wallet: Option<Identity>,
) -> (GhostView, Result<(), GhostError>) {
    if caller != g.owner {
        (g, Err(GhostError::Unauthorized))
    } else if index as int >= MAX_RECOVERY_WALLETS as int {
        (g, Err(GhostError::InvalidRecoveryWalletIndex))
    } else {
        (GhostView { recovery_wallets: g.recovery_wallets.update(index as int, wallet), ..g }, Ok(()))
    }
}

/// The owner sets or vacates one guardian slot.
pub fn update_recovery_wallet(
    record: &mut GhostAccount,
    caller: Identity,
    index: u8,
    wallet: Option<Identity>,
) -> (r: Result<(), GhostError>)
    requires
        old(record)@.wf(),
    ensures
        final(record)@ == spec_update_recovery_wallet(old(record)@, caller, index, wallet).0,
        r == spec_update_recovery_wallet(old(record)@, caller, index, wallet).1,
        final(record)@.wf(),
        old(record)@.executed ==> final(record)@.executed,
{
    if caller != record.owner {
        return Err(GhostError::Unauthorized);
    }
    if index as usize >= MAX_RECOVERY_WALLETS {
        return Err(GhostError::InvalidRecoveryWalletIndex);
    }
    record.recovery_wallets.set(index as usize, wallet);
    proof {
        assert(record@ =~= spec_update_recovery_wallet(old(record)@, caller, index, wallet).0);
    }
    Ok(())
}

} // verus!
