//! The lifecycle state machine: registration, heartbeats, silence detection,
//! awakening cancellation, execution, and the pause switch.

use vstd::prelude::*;

use crate::errors::GhostError;
use crate::state::ACTION_TRANSFER;
use crate::state::BPS_DENOMINATOR;
use crate::state::Beneficiary;
use crate::state::DISPLAY_NAME_LEN;
use crate::state::GhostAccount;
use crate::state::GhostView;
use crate::state::IMAGE_URI_LEN;
use crate::state::Identity;
use crate::state::MAX_BENEFICIARIES;
use crate::state::MAX_RECOVERY_WALLETS;
use crate::state::MIN_GRACE_PERIOD;
use crate::state::MIN_INTERVAL;
use crate::state::MIN_STAKE;
use crate::state::SILENCE_BOUNTY_BPS;
use crate::state::empty_beneficiaries;
use crate::state::empty_recovery_wallets;
use crate::state::lemma_bps_fraction_le;
use crate::state::zero_bytes;

verus! {

/// What registration yields: either the fresh record or the first minimum it
/// violates, in the order stake, interval, grace.
pub open spec fn spec_initialize_ghost(
    owner: Identity,
    interval_seconds: i64,
    grace_period_seconds: i64,
    stake_amount: u64,
    now: i64,
) -> Result<GhostView, GhostError> {
    if stake_amount < MIN_STAKE {
        Err(GhostError::InsufficientStake)
    } else if interval_seconds < MIN_INTERVAL {
        Err(GhostError::IntervalTooShort)
    } else if grace_period_seconds < MIN_GRACE_PERIOD {
        Err(GhostError::GracePeriodTooShort)
    } else {
        Ok(GhostView {
            owner,
            recovery_wallets: Seq::new(MAX_RECOVERY_WALLETS as nat, |i: int| None),
            last_heartbeat: now,
            interval_seconds,
            grace_period_seconds,
            awakened: false,
            awakened_at: None,
            executed: false,
            executed_at: None,
            staked_ghost: stake_amount,
            registered_at: now,
            ping_count: 0,
            beneficiary_count: 0,
            beneficiaries: Seq::new(MAX_BENEFICIARIES as nat, |i: int| Beneficiary::empty()),
            whole_vault_recipient: None,
            paused: false,
            pending_owner: None,
            whole_vault_action: ACTION_TRANSFER,
            display_name: Seq::new(DISPLAY_NAME_LEN as nat, |i: int| 0u8),
            image_uri: Seq::new(IMAGE_URI_LEN as nat, |i: int| 0u8),
        })
    }
}

/// Registration: validates the stake and the timers against their minimums
/// and returns the fresh record, alive as of `now`, with no guardians, no
/// beneficiaries and the stake locked. The host locks `stake_amount` into
/// escrow only when this returns `Ok`.
pub fn initialize_ghost(
    owner: Identity,
    interval_seconds: i64,
    grace_period_seconds: i64,
    stake_amount: u64,
    now: i64,
) -> (r: Result<GhostAccount, GhostError>)
    requires
        0 <= now,
    ensures
        r matches Ok(record) ==> Ok::<GhostView, GhostError>(record@)
            == spec_initialize_ghost(owner, interval_seconds, grace_period_seconds, stake_amount, now),
        r matches Err(e) ==> Err::<GhostView, GhostError>(e)
            == spec_initialize_ghost(owner, interval_seconds, grace_period_seconds, stake_amount, now),
        r matches Ok(record) ==> record@.wf(),
{
    if stake_amount < MIN_STAKE {
        return Err(GhostError::InsufficientStake);
    }
    if interval_seconds < MIN_INTERVAL {
        return Err(GhostError::IntervalTooShort);
    }
    if grace_period_seconds < MIN_GRACE_PERIOD {
        return Err(GhostError::GracePeriodTooShort);
    }
    let record = GhostAccount {
        owner,
        recovery_wallets: empty_recovery_wallets(),
        last_heartbeat: now,
        interval_seconds,
        grace_period_seconds,
        awakened: false,
        awakened_at: None,
        executed: false,
        executed_at: None,
        staked_ghost: stake_amount,
        registered_at: now,
        ping_count: 0,
        beneficiary_count: 0,
        beneficiaries: empty_beneficiaries(),
        whole_vault_recipient: None,
        paused: false,
        pending_owner: None,
        whole_vault_action: ACTION_TRANSFER,
        display_name: zero_bytes(DISPLAY_NAME_LEN),
        image_uri: zero_bytes(IMAGE_URI_LEN),
    };
    proof {
        let expected = spec_initialize_ghost(
            owner,
            interval_seconds,
            grace_period_seconds,
            stake_amount,
            now,
        )->Ok_0;
        assert(record@ =~= expected);
    }
    Ok(record)
}

/// How a heartbeat changes the record: owner-only, refused once executed;
/// resets the silence timer, counts the ping, and clears any in-flight
/// awakening.
pub open spec fn spec_ping(g: GhostView, caller: Identity, now: i64) -> (GhostView, Result<
    (),
    GhostError,
>) {
    if caller != g.owner {
        (g, Err(GhostError::Unauthorized))
    } else if g.executed {
        (g, Err(GhostError::GhostAlreadyExecuted))
    } else {
        (
            GhostView {
                last_heartbeat: now,
                ping_count: (g.ping_count + 1) as u64,
                awakened: false,
                awakened_at: None,
                ..g
            },
            Ok(()),
        )
    }
}

/// Heartbeat: the owner proves liveness at `now`. Self-healing: if the record
/// is awakened, the heartbeat also cancels the awakening, even mid-grace.
pub fn ping(record: &mut GhostAccount, caller: Identity, now: i64) -> (r: Result<(), GhostError>)
    requires
        old(record)@.wf(),
        0 <= now,
        old(record)@.ping_count < u64::MAX,
    ensures
        final(record)@ == spec_ping(old(record)@, caller, now).0,
        r == spec_ping(old(record)@, caller, now).1,
        final(record)@.wf(),
        old(record)@.executed ==> final(record)@.executed,
{
    if caller != record.owner {
        return Err(GhostError::Unauthorized);
    }
    if record.executed {
        return Err(GhostError::GhostAlreadyExecuted);
    }
    record.last_heartbeat = now;
    record.ping_count = record.ping_count + 1;
    if record.awakened {
        record.awakened = false;
        record.awakened_at = None;
    }
    proof {
        assert(record@ =~= spec_ping(old(record)@, caller, now).0);
    }
    Ok(())
}

/// How silence detection changes the record: callable by anyone; refused when
/// already awakened, executed or paused, or while a heartbeat lies within the
/// interval. On success the record awakens at `now` and the bounty — the
/// stake's bounty share, rounded down — is owed to the caller. A stake so
/// large that the bounty computation overflows fails the operation whole.
pub open spec fn spec_check_silence(g: GhostView, now: i64) -> (GhostView, Result<
    u64,
    GhostError,
>) {
    if g.awakened {
        (g, Err(GhostError::GhostAlreadyAwakened))
    } else if g.executed {
        (g, Err(GhostError::GhostAlreadyExecuted))
    } else if g.paused {
        (g, Err(GhostError::GhostPausedError))
    } else if now - g.last_heartbeat <= g.interval_seconds {
        (g, Err(GhostError::SoulStillAlive))
    } else if g.staked_ghost * SILENCE_BOUNTY_BPS > u64::MAX {
        (g, Err(GhostError::Overflow))
    } else {
        (
            GhostView { awakened: true, awakened_at: Some(now), ..g },
            Ok((g.staked_ghost * SILENCE_BOUNTY_BPS / (BPS_DENOMINATOR as int)) as u64),
        )
    }
}

/// Silence detection: any caller may awaken a record whose owner has been
/// silent for longer than the interval. Returns the bounty the host pays the
/// caller from the stake escrow; the bounty never exceeds the stake, so the
/// escrow never goes negative.
pub fn check_silence(record: &mut GhostAccount, now: i64) -> (r: Result<u64, GhostError>)
    requires
        old(record)@.wf(),
        0 <= now,
    ensures
        final(record)@ == spec_check_silence(old(record)@, now).0,
        r == spec_check_silence(old(record)@, now).1,
        final(record)@.wf(),
        old(record)@.executed ==> final(record)@.executed,
        r matches Ok(bounty) ==> bounty <= old(record)@.staked_ghost,
{
    if record.awakened {
        return Err(GhostError::GhostAlreadyAwakened);
    }
    if record.executed {
        return Err(GhostError::GhostAlreadyExecuted);
    }
    if record.paused {
        return Err(GhostError::GhostPausedError);
    }
    let silence: i64 = now - record.last_heartbeat;
    if silence <= record.interval_seconds {
        return Err(GhostError::SoulStillAlive);
    }
    let bounty: u64 = match record.staked_ghost.checked_mul(SILENCE_BOUNTY_BPS) {
        None => {
            return Err(GhostError::Overflow);
        },
        Some(scaled) => scaled / BPS_DENOMINATOR,
    };
    proof {
        lemma_bps_fraction_le(record.staked_ghost, SILENCE_BOUNTY_BPS);
    }
    record.awakened = true;
    record.awakened_at = Some(now);
    proof {
        assert(record@ =~= spec_check_silence(old(record)@, now).0);
    }
    Ok(bounty)
}

/// How cancellation changes the record: only while awakened and not executed,
/// only up to and including the grace deadline, and only by the owner or a
/// guardian. Reverts the record to alive; the silence timer is untouched —
/// only a heartbeat resets it.
pub open spec fn spec_cancel_awakening(g: GhostView, caller: Identity, now: i64) -> (GhostView, Result<
    (),
    GhostError,
>) {
    if !g.awakened {
        (g, Err(GhostError::GhostNotAwakened))
    } else if g.executed {
        (g, Err(GhostError::GhostAlreadyExecuted))
    } else if now > g.grace_deadline() {
        (g, Err(GhostError::GracePeriodExpired))
    } else if caller != g.owner && !g.is_guardian(caller) {
        (g, Err(GhostError::Unauthorized))
    } else {
        (GhostView { awakened: false, awakened_at: None, ..g }, Ok(()))
    }
}

/// Cancellation: the owner or a guardian calls off an awakening while the
/// grace window is still open (`now` at the deadline itself still succeeds).
pub fn cancel_awakening(record: &mut GhostAccount, caller: Identity, now: i64) -> (r: Result<
    (),
    GhostError,
>)
    requires
        old(record)@.wf(),
        0 <= now,
    ensures
        final(record)@ == spec_cancel_awakening(old(record)@, caller, now).0,
        r == spec_cancel_awakening(old(record)@, caller, now).1,
        final(record)@.wf(),
        old(record)@.executed ==> final(record)@.executed,
{
    if !record.awakened {
        return Err(GhostError::GhostNotAwakened);
    }
    if record.executed {
        return Err(GhostError::GhostAlreadyExecuted);
    }
    let awakened_at: i64 = record.awakened_at.unwrap();
    if now - awakened_at > record.grace_period_seconds {
        return Err(GhostError::GracePeriodExpired);
    }
    let authorized: bool = caller == record.owner
        || crate::state::is_recovery_wallet(&record.recovery_wallets, caller);
    if !authorized {
        return Err(GhostError::Unauthorized);
    }
    record.awakened = false;
    record.awakened_at = None;
    proof {
        assert(record@ =~= spec_cancel_awakening(old(record)@, caller, now).0);
    }
    Ok(())
}

/// How execution changes the record: only while awakened and not yet
/// executed, and only strictly after the grace deadline. Sets the terminal
/// `executed` flag; it moves no funds itself.
pub open spec fn spec_execute_legacy(g: GhostView, now: i64) -> (GhostView, Result<
    (),
    GhostError,
>) {
    if !g.awakened {
        (g, Err(GhostError::GhostNotAwakened))
    } else if g.executed {
        (g, Err(GhostError::GhostAlreadyExecuted))
    } else if now <= g.grace_deadline() {
        (g, Err(GhostError::GracePeriodActive))
    } else {
        (GhostView { executed: true, executed_at: Some(now), ..g }, Ok(()))
    }
}

/// Execution: any caller may mark the record executed once the grace window
/// has expired without cancellation. One-shot; payouts unlock afterwards.
pub fn execute_legacy(record: &mut GhostAccount, now: i64) -> (r: Result<(), GhostError>)
    requires
        old(record)@.wf(),
        0 <= now,
    ensures
        final(record)@ == spec_execute_legacy(old(record)@, now).0,
        r == spec_execute_legacy(old(record)@, now).1,
        final(record)@.wf(),
        old(record)@.executed ==> final(record)@.executed,
{
    if !record.awakened {
        return Err(GhostError::GhostNotAwakened);
    }
    if record.executed {
        return Err(GhostError::GhostAlreadyExecuted);
    }
    let awakened_at: i64 = record.awakened_at.unwrap();
    if now - awakened_at <= record.grace_period_seconds {
        return Err(GhostError::GracePeriodActive);
    }
    record.executed = true;
    record.executed_at = Some(now);
    proof {
        assert(record@ =~= spec_execute_legacy(old(record)@, now).0);
    }
    Ok(())
}

/// How pausing changes the record: owner-only, refused when already paused or
/// executed. Only the flag changes.
pub open spec fn spec_pause_ghost(g: GhostView, caller: Identity) -> (GhostView, Result<
    (),
    GhostError,
>) {
    if caller != g.owner {
        (g, Err(GhostError::Unauthorized))
    } else if g.paused {
        (g, Err(GhostError::GhostPausedError))
    } else if g.executed {
        (g, Err(GhostError::GhostAlreadyExecuted))
    } else {
        (GhostView { paused: true, ..g }, Ok(()))
    }
}

/// Pause: the owner blocks beneficiary mutation and silence detection.
pub fn pause_ghost(record: &mut GhostAccount, caller: Identity) -> (r: Result<(), GhostError>)
    requires
        old(record)@.wf(),
    ensures
        final(record)@ == spec_pause_ghost(old(record)@, caller).0,
        r == spec_pause_ghost(old(record)@, caller).1,
        final(record)@.wf(),
        old(record)@.executed ==> final(record)@.executed,
{
    if caller != record.owner {
        return Err(GhostError::Unauthorized);
    }
    if record.paused {
        return Err(GhostError::GhostPausedError);
    }
    if record.executed {
        return Err(GhostError::GhostAlreadyExecuted);
    }
    record.paused = true;
    proof {
        assert(record@ =~= spec_pause_ghost(old(record)@, caller).0);
    }
    Ok(())
}

/// How resuming changes the record: owner-only, refused unless paused and
/// refused once executed.
pub open spec fn spec_resume_ghost(g: GhostView, caller: Identity) -> (GhostView, Result<
    (),
    GhostError,
>) {
    if caller != g.owner {
        (g, Err(GhostError::Unauthorized))
    } else if !g.paused {
        (g, Err(GhostError::GhostNotPaused))
    } else if g.executed {
        (g, Err(GhostError::GhostAlreadyExecuted))
    } else {
        (GhostView { paused: false, ..g }, Ok(()))
    }
}

/// Resume: the owner lifts the pause.
pub fn resume_ghost(record: &mut GhostAccount, caller: Identity) -> (r: Result<(), GhostError>)
    requires
        old(record)@.wf(),
    ensures
        final(record)@ == spec_resume_ghost(old(record)@, caller).0,
        r == spec_resume_ghost(old(record)@, caller).1,
        final(record)@.wf(),
        old(record)@.executed ==> final(record)@.executed,
{
    if caller != record.owner {
        return Err(GhostError::Unauthorized);
    }
    if !record.paused {
        return Err(GhostError::GhostNotPaused);
    }
    if record.executed {
        return Err(GhostError::GhostAlreadyExecuted);
    }
    record.paused = false;
    proof {
        assert(record@ =~= spec_resume_ghost(old(record)@, caller).0);
    }
    Ok(())
}

} // verus!
