use ghost_protocol::errors::GhostError;
use ghost_protocol::lifecycle::check_silence;
use ghost_protocol::lifecycle::execute_legacy;
use ghost_protocol::lifecycle::initialize_ghost;
use ghost_protocol::lifecycle::ping;
use ghost_protocol::settings::accept_ownership;
use ghost_protocol::settings::set_ghost_profile;
use ghost_protocol::settings::transfer_ownership;
use ghost_protocol::settings::update_grace_period;
use ghost_protocol::settings::update_interval;
use ghost_protocol::settings::update_interval_and_grace;
use ghost_protocol::settings::update_recovery_wallet;
use ghost_protocol::state::DISPLAY_NAME_LEN;
use ghost_protocol::state::GhostAccount;
use ghost_protocol::state::IMAGE_URI_LEN;
use ghost_protocol::state::Identity;
use ghost_protocol::state::MIN_GRACE_PERIOD;
use ghost_protocol::state::MIN_INTERVAL;
use ghost_protocol::state::MIN_STAKE;

const OWNER: Identity = Identity { id: 1 };
const SUCCESSOR: Identity = Identity { id: 3 };
const STRANGER: Identity = Identity { id: 99 };

fn fresh_settings_record() -> GhostAccount {
    initialize_ghost(OWNER, MIN_INTERVAL, MIN_GRACE_PERIOD, MIN_STAKE, 0).unwrap()
}

#[test]
fn handoff_is_two_phase() {
    let mut record = fresh_settings_record();
    assert_eq!(transfer_ownership(&mut record, OWNER, SUCCESSOR), Ok(()));
    assert_eq!(record.pending_owner, Some(SUCCESSOR));
    // Nominating does not change the owner.
    assert_eq!(record.owner, OWNER);
    assert_eq!(accept_ownership(&mut record, SUCCESSOR), Ok(()));
    assert_eq!(record.owner, SUCCESSOR);
    assert_eq!(record.pending_owner, None);
    // The old owner lost the role.
    assert_eq!(ping(&mut record, OWNER, 100), Err(GhostError::Unauthorized));
    assert_eq!(ping(&mut record, SUCCESSOR, 100), Ok(()));
}

#[test]
fn handoff_rejects_self_stranger_and_executed() {
    let mut record = fresh_settings_record();
    assert_eq!(transfer_ownership(&mut record, OWNER, OWNER), Err(GhostError::Unauthorized));
    assert_eq!(
        transfer_ownership(&mut record, STRANGER, SUCCESSOR),
        Err(GhostError::Unauthorized)
    );
    check_silence(&mut record, MIN_INTERVAL + 1).unwrap();
    execute_legacy(&mut record, MIN_INTERVAL + 1 + MIN_GRACE_PERIOD + 1).unwrap();
    assert_eq!(
        transfer_ownership(&mut record, OWNER, SUCCESSOR),
        Err(GhostError::GhostAlreadyExecuted)
    );
}

#[test]
fn accept_requires_the_nominated_caller() {
    let mut record = fresh_settings_record();
    assert_eq!(accept_ownership(&mut record, SUCCESSOR), Err(GhostError::NoPendingOwnerTransfer));
    transfer_ownership(&mut record, OWNER, SUCCESSOR).unwrap();
    assert_eq!(accept_ownership(&mut record, STRANGER), Err(GhostError::NoPendingOwnerTransfer));
    assert_eq!(record.owner, OWNER);
}

#[test]
fn timer_updates_enforce_minimums() {
    let mut record = fresh_settings_record();
    assert_eq!(update_interval(&mut record, OWNER, MIN_INTERVAL + 5), Ok(()));
    assert_eq!(record.interval_seconds, MIN_INTERVAL + 5);
    assert_eq!(
        update_interval(&mut record, OWNER, MIN_INTERVAL - 1),
        Err(GhostError::IntervalTooShort)
    );
    assert_eq!(update_grace_period(&mut record, OWNER, MIN_GRACE_PERIOD + 9), Ok(()));
    assert_eq!(record.grace_period_seconds, MIN_GRACE_PERIOD + 9);
    assert_eq!(
        update_grace_period(&mut record, OWNER, MIN_GRACE_PERIOD - 1),
        Err(GhostError::GracePeriodTooShort)
    );
    assert_eq!(
        update_interval_and_grace(&mut record, OWNER, MIN_INTERVAL, MIN_GRACE_PERIOD),
        Ok(())
    );
    assert_eq!(record.interval_seconds, MIN_INTERVAL);
    assert_eq!(record.grace_period_seconds, MIN_GRACE_PERIOD);
    assert_eq!(
        update_interval_and_grace(&mut record, STRANGER, MIN_INTERVAL, MIN_GRACE_PERIOD),
        Err(GhostError::Unauthorized)
    );
}

#[test]
fn recovery_wallet_slots_are_bounded() {
    let mut record = fresh_settings_record();
    assert_eq!(update_recovery_wallet(&mut record, OWNER, 2, Some(SUCCESSOR)), Ok(()));
    assert_eq!(record.recovery_wallets[2], Some(SUCCESSOR));
    assert_eq!(
        update_recovery_wallet(&mut record, OWNER, 3, Some(SUCCESSOR)),
        Err(GhostError::InvalidRecoveryWalletIndex)
    );
    assert_eq!(update_recovery_wallet(&mut record, OWNER, 2, None), Ok(()));
    assert_eq!(record.recovery_wallets[2], None);
    assert_eq!(
        update_recovery_wallet(&mut record, STRANGER, 0, Some(STRANGER)),
        Err(GhostError::Unauthorized)
    );
}

#[test]
fn duplicate_guardian_slots_are_accepted() {
    // Nothing enforces distinct guardians structurally; that is caller
    // discipline, and a duplicated identity still authorizes.
    let mut record = fresh_settings_record();
    update_recovery_wallet(&mut record, OWNER, 0, Some(SUCCESSOR)).unwrap();
    update_recovery_wallet(&mut record, OWNER, 1, Some(SUCCESSOR)).unwrap();
    assert_eq!(record.recovery_wallets[0], Some(SUCCESSOR));
    assert_eq!(record.recovery_wallets[1], Some(SUCCESSOR));
    check_silence(&mut record, MIN_INTERVAL + 1).unwrap();
    assert_eq!(
        ghost_protocol::lifecycle::cancel_awakening(&mut record, SUCCESSOR, MIN_INTERVAL + 2),
        Ok(())
    );
}

#[test]
fn profile_is_cosmetic_and_owner_only() {
    let mut record = fresh_settings_record();
    let name = vec![7u8; DISPLAY_NAME_LEN];
    let uri = vec![9u8; IMAGE_URI_LEN];
    assert_eq!(set_ghost_profile(&mut record, OWNER, name.clone(), uri.clone()), Ok(()));
    assert_eq!(record.display_name, name);
    assert_eq!(record.image_uri, uri);
    assert!(!record.awakened);
    assert_eq!(record.ping_count, 0);
    assert_eq!(
        set_ghost_profile(&mut record, STRANGER, vec![0u8; DISPLAY_NAME_LEN], vec![0u8; IMAGE_URI_LEN]),
        Err(GhostError::Unauthorized)
    );
}
