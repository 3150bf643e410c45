use ghost_protocol::errors::GhostError;
use ghost_protocol::lifecycle::cancel_awakening;
use ghost_protocol::lifecycle::check_silence;
use ghost_protocol::lifecycle::execute_legacy;
use ghost_protocol::lifecycle::initialize_ghost;
use ghost_protocol::lifecycle::pause_ghost;
use ghost_protocol::lifecycle::ping;
use ghost_protocol::lifecycle::resume_ghost;
use ghost_protocol::state::GhostAccount;
use ghost_protocol::state::Identity;
use ghost_protocol::state::MAX_BENEFICIARIES;
use ghost_protocol::state::MAX_RECOVERY_WALLETS;
use ghost_protocol::state::MIN_GRACE_PERIOD;
use ghost_protocol::state::MIN_INTERVAL;
use ghost_protocol::state::MIN_STAKE;

const OWNER: Identity = Identity { id: 1 };
const STRANGER: Identity = Identity { id: 99 };
const DAY: i64 = 24 * 60 * 60;

fn fresh_lifecycle_record(t0: i64) -> GhostAccount {
    initialize_ghost(OWNER, MIN_INTERVAL, MIN_GRACE_PERIOD, MIN_STAKE, t0).unwrap()
}

#[test]
fn register_creates_alive_record() {
    let record = fresh_lifecycle_record(1000);
    assert_eq!(record.owner, OWNER);
    assert_eq!(record.staked_ghost, MIN_STAKE);
    assert_eq!(record.last_heartbeat, 1000);
    assert_eq!(record.registered_at, 1000);
    assert!(!record.awakened);
    assert_eq!(record.awakened_at, None);
    assert!(!record.executed);
    assert_eq!(record.executed_at, None);
    assert!(!record.paused);
    assert_eq!(record.ping_count, 0);
    assert_eq!(record.beneficiary_count, 0);
    assert_eq!(record.beneficiaries.len(), MAX_BENEFICIARIES);
    assert_eq!(record.recovery_wallets.len(), MAX_RECOVERY_WALLETS);
    assert_eq!(record.pending_owner, None);
    assert_eq!(record.whole_vault_recipient, None);
}

#[test]
fn register_rejects_small_stake() {
    let r = initialize_ghost(OWNER, MIN_INTERVAL, MIN_GRACE_PERIOD, MIN_STAKE - 1, 0);
    assert_eq!(r.unwrap_err(), GhostError::InsufficientStake);
}

#[test]
fn register_rejects_short_interval() {
    let r = initialize_ghost(OWNER, MIN_INTERVAL - 1, MIN_GRACE_PERIOD, MIN_STAKE, 0);
    assert_eq!(r.unwrap_err(), GhostError::IntervalTooShort);
}

#[test]
fn register_rejects_short_grace() {
    let r = initialize_ghost(OWNER, MIN_INTERVAL, MIN_GRACE_PERIOD - 1, MIN_STAKE, 0);
    assert_eq!(r.unwrap_err(), GhostError::GracePeriodTooShort);
}

#[test]
fn ping_resets_timer_and_counts() {
    let mut record = fresh_lifecycle_record(1000);
    assert_eq!(ping(&mut record, OWNER, 2000), Ok(()));
    assert_eq!(record.last_heartbeat, 2000);
    assert_eq!(record.ping_count, 1);
    assert_eq!(ping(&mut record, OWNER, 3000), Ok(()));
    assert_eq!(record.ping_count, 2);
}

#[test]
fn ping_rejects_stranger() {
    let mut record = fresh_lifecycle_record(1000);
    assert_eq!(ping(&mut record, STRANGER, 2000), Err(GhostError::Unauthorized));
    assert_eq!(record.ping_count, 0);
    assert_eq!(record.last_heartbeat, 1000);
}

#[test]
fn check_silence_rejects_live_owner() {
    let mut record = fresh_lifecycle_record(0);
    // Exactly at the interval the owner is still alive: silence must exceed it.
    let r = check_silence(&mut record, MIN_INTERVAL);
    assert_eq!(r, Err(GhostError::SoulStillAlive));
    assert!(!record.awakened);
}

#[test]
fn silence_scenario_pays_bounty_and_ping_heals() {
    // Stake of 10,000 whole units (at six decimals), interval seven days,
    // grace one day; silence for eight days.
    let mut record = fresh_lifecycle_record(0);
    let now = 8 * DAY;
    let bounty = check_silence(&mut record, now).unwrap();
    assert_eq!(bounty, 500 * 1_000_000);
    assert_eq!(record.staked_ghost - bounty, 9_500 * 1_000_000);
    assert!(record.awakened);
    assert_eq!(record.awakened_at, Some(now));
    // A heartbeat within the grace window cancels the awakening and resets
    // the timer.
    let later = now + DAY / 2;
    assert_eq!(ping(&mut record, OWNER, later), Ok(()));
    assert!(!record.awakened);
    assert_eq!(record.awakened_at, None);
    assert_eq!(record.last_heartbeat, later);
}

#[test]
fn check_silence_rejects_twice() {
    let mut record = fresh_lifecycle_record(0);
    check_silence(&mut record, 8 * DAY).unwrap();
    let r = check_silence(&mut record, 9 * DAY);
    assert_eq!(r, Err(GhostError::GhostAlreadyAwakened));
}

#[test]
fn check_silence_rejects_paused_record() {
    let mut record = fresh_lifecycle_record(0);
    pause_ghost(&mut record, OWNER).unwrap();
    let r = check_silence(&mut record, 8 * DAY);
    assert_eq!(r, Err(GhostError::GhostPausedError));
}

#[test]
fn cancel_succeeds_at_deadline_and_fails_after() {
    let awakening = 8 * DAY;
    let deadline = awakening + MIN_GRACE_PERIOD;

    let mut at_deadline = fresh_lifecycle_record(0);
    check_silence(&mut at_deadline, awakening).unwrap();
    assert_eq!(cancel_awakening(&mut at_deadline, OWNER, deadline), Ok(()));
    assert!(!at_deadline.awakened);
    assert_eq!(at_deadline.awakened_at, None);
    // Cancellation leaves the silence timer alone: only a heartbeat resets it.
    assert_eq!(at_deadline.last_heartbeat, 0);

    let mut past_deadline = fresh_lifecycle_record(0);
    check_silence(&mut past_deadline, awakening).unwrap();
    assert_eq!(
        cancel_awakening(&mut past_deadline, OWNER, deadline + 1),
        Err(GhostError::GracePeriodExpired)
    );
    assert!(past_deadline.awakened);
}

#[test]
fn execute_fails_at_deadline_and_succeeds_after() {
    let awakening = 8 * DAY;
    let deadline = awakening + MIN_GRACE_PERIOD;

    let mut at_deadline = fresh_lifecycle_record(0);
    check_silence(&mut at_deadline, awakening).unwrap();
    assert_eq!(execute_legacy(&mut at_deadline, deadline), Err(GhostError::GracePeriodActive));
    assert!(!at_deadline.executed);

    let mut past_deadline = fresh_lifecycle_record(0);
    check_silence(&mut past_deadline, awakening).unwrap();
    assert_eq!(execute_legacy(&mut past_deadline, deadline + 1), Ok(()));
    assert!(past_deadline.executed);
    assert_eq!(past_deadline.executed_at, Some(deadline + 1));
}

#[test]
fn cancel_rejects_alive_record() {
    let mut record = fresh_lifecycle_record(0);
    let r = cancel_awakening(&mut record, OWNER, 100);
    assert_eq!(r, Err(GhostError::GhostNotAwakened));
}

#[test]
fn cancel_rejects_stranger() {
    let mut record = fresh_lifecycle_record(0);
    check_silence(&mut record, 8 * DAY).unwrap();
    let r = cancel_awakening(&mut record, STRANGER, 8 * DAY + 100);
    assert_eq!(r, Err(GhostError::Unauthorized));
    assert!(record.awakened);
}

#[test]
fn execute_rejects_alive_record() {
    let mut record = fresh_lifecycle_record(0);
    assert_eq!(execute_legacy(&mut record, 30 * DAY), Err(GhostError::GhostNotAwakened));
}

#[test]
fn executed_record_refuses_further_lifecycle_moves() {
    let mut record = fresh_lifecycle_record(0);
    check_silence(&mut record, 8 * DAY).unwrap();
    execute_legacy(&mut record, 10 * DAY).unwrap();
    assert_eq!(execute_legacy(&mut record, 11 * DAY), Err(GhostError::GhostAlreadyExecuted));
    assert_eq!(ping(&mut record, OWNER, 11 * DAY), Err(GhostError::GhostAlreadyExecuted));
    assert_eq!(
        cancel_awakening(&mut record, OWNER, 11 * DAY),
        Err(GhostError::GhostAlreadyExecuted)
    );
    assert_eq!(pause_ghost(&mut record, OWNER), Err(GhostError::GhostAlreadyExecuted));
    // The flag never reverts.
    assert!(record.executed);
}

#[test]
fn pause_and_resume_toggle_only_the_flag() {
    let mut record = fresh_lifecycle_record(0);
    assert_eq!(pause_ghost(&mut record, OWNER), Ok(()));
    assert!(record.paused);
    assert_eq!(pause_ghost(&mut record, OWNER), Err(GhostError::GhostPausedError));
    assert_eq!(resume_ghost(&mut record, OWNER), Ok(()));
    assert!(!record.paused);
    assert_eq!(resume_ghost(&mut record, OWNER), Err(GhostError::GhostNotPaused));
}

#[test]
fn resume_rejects_an_executed_record() {
    // Reachable state: awaken (not paused), pause while awakened, execute
    // (which does not check the pause). Resume must then refuse.
    let mut record = fresh_lifecycle_record(0);
    check_silence(&mut record, 8 * DAY).unwrap();
    pause_ghost(&mut record, OWNER).unwrap();
    execute_legacy(&mut record, 10 * DAY).unwrap();
    assert_eq!(resume_ghost(&mut record, OWNER), Err(GhostError::GhostAlreadyExecuted));
    assert!(record.paused);
}

#[test]
fn pause_rejects_stranger() {
    let mut record = fresh_lifecycle_record(0);
    assert_eq!(pause_ghost(&mut record, STRANGER), Err(GhostError::Unauthorized));
    assert_eq!(resume_ghost(&mut record, STRANGER), Err(GhostError::Unauthorized));
}
