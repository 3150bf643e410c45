//! The cross-operation laws of the protocol, each proved over the transition
//! functions that the operations' contracts are stated with.

use vstd::prelude::*;

use crate::beneficiaries::spec_add_beneficiary;
use crate::beneficiaries::spec_guardian_clear_beneficiaries;
use crate::beneficiaries::spec_guardian_remove_beneficiary;
use crate::beneficiaries::spec_guardian_set_whole_vault_recipient;
use crate::beneficiaries::spec_remove_beneficiary;
use crate::beneficiaries::spec_set_whole_vault_recipient;
use crate::beneficiaries::spec_update_beneficiary;
use crate::errors::GhostError;
use crate::lifecycle::spec_cancel_awakening;
use crate::lifecycle::spec_check_silence;
use crate::lifecycle::spec_execute_legacy;
use crate::lifecycle::spec_pause_ghost;
use crate::lifecycle::spec_ping;
use crate::lifecycle::spec_resume_ghost;
use crate::settings::spec_accept_ownership;
use crate::settings::spec_set_ghost_profile;
use crate::settings::spec_transfer_ownership;
use crate::settings::spec_update_grace_period;
use crate::settings::spec_update_interval;
use crate::settings::spec_update_interval_and_grace;
use crate::settings::spec_update_recovery_wallet;
use crate::settlement::spec_abandon_ghost;
use crate::settlement::spec_execute_burn;
use crate::settlement::spec_execute_transfer;
use crate::state::BPS_DENOMINATOR;
use crate::state::BURN_ON_ABANDON_BPS;
use crate::state::Beneficiary;
use crate::state::GhostView;
use crate::state::Identity;
use crate::state::MAX_BENEFICIARIES;
use crate::state::SILENCE_BOUNTY_BPS;
use crate::state::lemma_bps_fraction_le;

verus! {

/// Ledger shape: a well-formed record holds at most `MAX_BENEFICIARIES`
/// entries, packed gap-free at the front — every slot from the count onward
/// holds the empty entry. Registration establishes well-formedness and every
/// operation's contract preserves it, so this shape survives any sequence of
/// additions and removals.
pub proof fn lemma_ledger_shape(g: GhostView)
    requires
        g.wf(),
    ensures
        g.beneficiary_count as int <= MAX_BENEFICIARIES as int,
        g.beneficiaries.len() == MAX_BENEFICIARIES as int,
        forall|i: int|
            g.beneficiary_count as int <= i < MAX_BENEFICIARIES as int
                ==> g.beneficiaries[i] == Beneficiary::empty(),
{
}

/// Execution is monotonic: once a record is executed, no operation's
/// transition — whatever its caller or arguments — ever clears the flag.
pub proof fn lemma_executed_is_monotonic(g: GhostView)
    requires
        g.executed,
    ensures
        forall|caller: Identity, now: i64| (#[trigger] spec_ping(g, caller, now)).0.executed,
        forall|now: i64| (#[trigger] spec_check_silence(g, now)).0.executed,
        forall|caller: Identity, now: i64|
            (#[trigger] spec_cancel_awakening(g, caller, now)).0.executed,
        forall|now: i64| (#[trigger] spec_execute_legacy(g, now)).0.executed,
        forall|caller: Identity| (#[trigger] spec_pause_ghost(g, caller)).0.executed,
        forall|caller: Identity| (#[trigger] spec_resume_ghost(g, caller)).0.executed,
        forall|caller: Identity, recipient: Identity, amount: u64, token_mint: Option<Identity>, action: u8|
            (#[trigger] spec_add_beneficiary(g, caller, recipient, amount, token_mint, action)).0.executed,
        forall|caller: Identity, index: u8|
            (#[trigger] spec_remove_beneficiary(g, caller, index)).0.executed,
        forall|caller: Identity, index: u8, recipient: Identity, amount: u64, token_mint: Option<Identity>, action: u8|
            (#[trigger] spec_update_beneficiary(g, caller, index, recipient, amount, token_mint, action)).0.executed,
        forall|caller: Identity, index: u8|
            (#[trigger] spec_guardian_remove_beneficiary(g, caller, index)).0.executed,
        forall|caller: Identity|
            (#[trigger] spec_guardian_clear_beneficiaries(g, caller)).0.executed,
        forall|caller: Identity, recipient: Option<Identity>, action: u8|
            (#[trigger] spec_set_whole_vault_recipient(g, caller, recipient, action)).0.executed,
        forall|caller: Identity, recipient: Option<Identity>, action: u8|
            (#[trigger] spec_guardian_set_whole_vault_recipient(g, caller, recipient, action)).0.executed,
        forall|caller: Identity, display_name: Seq<u8>, image_uri: Seq<u8>|
            (#[trigger] spec_set_ghost_profile(g, caller, display_name, image_uri)).0.executed,
        forall|caller: Identity, new_owner: Identity|
            (#[trigger] spec_transfer_ownership(g, caller, new_owner)).0.executed,
        forall|caller: Identity| (#[trigger] spec_accept_ownership(g, caller)).0.executed,
        forall|caller: Identity, interval_seconds: i64, grace_period_seconds: i64|
            (#[trigger] spec_update_interval_and_grace(g, caller, interval_seconds, grace_period_seconds)).0.executed,
        forall|caller: Identity, interval_seconds: i64|
            (#[trigger] spec_update_interval(g, caller, interval_seconds)).0.executed,
        forall|caller: Identity, grace_period_seconds: i64|
            (#[trigger] spec_update_grace_period(g, caller, grace_period_seconds)).0.executed,
        forall|caller: Identity, index: u8, wallet: Option<Identity>|
            (#[trigger] spec_update_recovery_wallet(g, caller, index, wallet)).0.executed,
        forall|recipient: Identity, token_mint: Identity, index: u8|
            (#[trigger] spec_execute_transfer(g, recipient, token_mint, index)).0.executed,
        forall|token_mint: Identity, index: u8|
            (#[trigger] spec_execute_burn(g, token_mint, index)).0.executed,
{
}

/// A transfer entry settles at most once: after one successful transfer
/// settlement of an index, a repeat attempt on that index — as a transfer or
/// as a burn, with whatever recipient and asset — fails with
/// `BeneficiaryAlreadyPaid`.
pub proof fn lemma_transfer_settles_at_most_once(
    g: GhostView,
    recipient: Identity,
    token_mint: Identity,
    index: u8,
    later_recipient: Identity,
    later_token_mint: Identity,
)
    requires
        g.wf(),
        spec_execute_transfer(g, recipient, token_mint, index).1 is Ok,
    ensures
        spec_execute_transfer(
            spec_execute_transfer(g, recipient, token_mint, index).0,
            later_recipient,
            later_token_mint,
            index,
        ).1 == Err::<u64, GhostError>(GhostError::BeneficiaryAlreadyPaid),
        spec_execute_burn(
            spec_execute_transfer(g, recipient, token_mint, index).0,
            later_token_mint,
            index,
        ).1 == Err::<u64, GhostError>(GhostError::BeneficiaryAlreadyPaid),
{
}

/// A burn entry settles at most once, exactly as a transfer entry does.
pub proof fn lemma_burn_settles_at_most_once(
    g: GhostView,
    token_mint: Identity,
    index: u8,
    later_recipient: Identity,
    later_token_mint: Identity,
)
    requires
        g.wf(),
        spec_execute_burn(g, token_mint, index).1 is Ok,
    ensures
        spec_execute_burn(
            spec_execute_burn(g, token_mint, index).0,
            later_token_mint,
            index,
        ).1 == Err::<u64, GhostError>(GhostError::BeneficiaryAlreadyPaid),
        spec_execute_transfer(
            spec_execute_burn(g, token_mint, index).0,
            later_recipient,
            later_token_mint,
            index,
        ).1 == Err::<u64, GhostError>(GhostError::BeneficiaryAlreadyPaid),
{
}

/// Bounty law: a successful awakening of a record staked with `S` pays
/// exactly the bounty share of `S`, rounded down; the bounty never exceeds
/// `S`, so `S - bounty` remains in escrow, and the recorded stake itself does
/// not change.
pub proof fn lemma_awakening_bounty(g: GhostView, now: i64)
    requires
        spec_check_silence(g, now).1 is Ok,
    ensures
        spec_check_silence(g, now).1->Ok_0
            == g.staked_ghost * SILENCE_BOUNTY_BPS / (BPS_DENOMINATOR as int),
        spec_check_silence(g, now).1->Ok_0 <= g.staked_ghost,
        spec_check_silence(g, now).0.staked_ghost == g.staked_ghost,
{
    lemma_bps_fraction_le(g.staked_ghost, SILENCE_BOUNTY_BPS);
}

/// Abandonment law: a successful abandonment of a record staked with `S`
/// burns exactly the abandonment share of `S`, rounded down, and returns the
/// rest; burned and returned together account for the whole stake.
pub proof fn lemma_abandonment_split(g: GhostView, caller: Identity)
    requires
        spec_abandon_ghost(g, caller) is Ok,
    ensures
        spec_abandon_ghost(g, caller)->Ok_0.0
            == g.staked_ghost * BURN_ON_ABANDON_BPS / (BPS_DENOMINATOR as int),
        spec_abandon_ghost(g, caller)->Ok_0.0 + spec_abandon_ghost(g, caller)->Ok_0.1
            == g.staked_ghost,
{
    lemma_bps_fraction_le(g.staked_ghost, BURN_ON_ABANDON_BPS);
}

/// Grace-window boundary: with the clock exactly at the grace deadline,
/// cancellation still succeeds and execution is refused as premature; one
/// second past the deadline, cancellation is refused as expired and execution
/// succeeds.
pub proof fn lemma_grace_window_boundary(g: GhostView, caller: Identity)
    requires
        g.wf(),
        g.awakened,
        !g.executed,
        caller == g.owner || g.is_guardian(caller),
        g.grace_deadline() + 1 <= i64::MAX,
    ensures
        spec_cancel_awakening(g, caller, g.grace_deadline() as i64).1 is Ok,
        spec_execute_legacy(g, g.grace_deadline() as i64).1
            == Err::<(), GhostError>(GhostError::GracePeriodActive),
        spec_cancel_awakening(g, caller, (g.grace_deadline() + 1) as i64).1
            == Err::<(), GhostError>(GhostError::GracePeriodExpired),
        spec_execute_legacy(g, (g.grace_deadline() + 1) as i64).1 is Ok,
{
}

/// Self-healing heartbeat: an owner heartbeat on an awakened, not yet
/// executed record — even mid-grace — succeeds, cancels the awakening and
/// resets the silence timer to the heartbeat's time.
pub proof fn lemma_heartbeat_heals_awakening(g: GhostView, now: i64)
    requires
        g.awakened,
        !g.executed,
        now as int <= g.grace_deadline(),
    ensures
        spec_ping(g, g.owner, now).1 is Ok,
        !spec_ping(g, g.owner, now).0.awakened,
        spec_ping(g, g.owner, now).0.awakened_at is None,
        spec_ping(g, g.owner, now).0.last_heartbeat == now,
{
}

/// Round-trip: appending one entry to an empty ledger and then removing index
/// zero restores the record exactly as it was, empty slots included.
pub proof fn lemma_add_remove_round_trip(
    g: GhostView,
    caller: Identity,
    recipient: Identity,
    amount: u64,
    token_mint: Option<Identity>,
    action: u8,
)
    requires
        g.wf(),
        g.beneficiary_count == 0,
        spec_add_beneficiary(g, caller, recipient, amount, token_mint, action).1 is Ok,
    ensures
        spec_remove_beneficiary(
            spec_add_beneficiary(g, caller, recipient, amount, token_mint, action).0,
            caller,
            0,
        ).1 is Ok,
        spec_remove_beneficiary(
            spec_add_beneficiary(g, caller, recipient, amount, token_mint, action).0,
            caller,
            0,
        ).0 == g,
{
    let g1 = spec_add_beneficiary(g, caller, recipient, amount, token_mint, action).0;
    let g2 = spec_remove_beneficiary(g1, caller, 0).0;
    assert(g2.beneficiaries =~= g.beneficiaries);
    assert(g2 =~= g);
}

} // verus!
