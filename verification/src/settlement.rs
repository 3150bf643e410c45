//! Settlement and fund-movement decisions: per-entry payouts, whole-vault
//! payouts, deposits, withdrawals, guardian recovery and abandonment.
//!
//! No function here moves value. Each one evaluates the guards against the
//! record and, on success, returns the amount the host's custody adapter must
//! move or destroy; the host commits the record only if that movement
//! succeeds, so a failed movement leaves no partial effect.

use vstd::prelude::*;

use crate::errors::GhostError;
use crate::state::ACTION_BURN;
use crate::state::ACTION_TRANSFER;
use crate::state::BPS_DENOMINATOR;
use crate::state::BURN_ON_ABANDON_BPS;
use crate::state::Beneficiary;
use crate::state::GhostAccount;
use crate::state::GhostView;
use crate::state::Identity;
use crate::state::is_recovery_wallet;
use crate::state::lemma_bps_fraction_le;

verus! {

/// How settling one transfer entry changes the record: only on an executed
/// record, only a live entry, only once, only for a transfer entry, and only
/// when the supplied recipient and asset match the stored ones exactly. On
/// success the entry's amount is owed to its recipient and the entry is
/// marked settled.
pub open spec fn spec_execute_transfer(
    g: GhostView,
    recipient: Identity,
    token_mint: Identity,
    index: u8,
) -> (GhostView, Result<u64, GhostError>) {
    if !g.executed {
        (g, Err(GhostError::GhostNotExecuted))
    } else if index as int >= g.beneficiary_count as int {
        (g, Err(GhostError::InvalidBeneficiary))
    } else {
        let b = g.beneficiaries[index as int];
        if b.executed {
            (g, Err(GhostError::BeneficiaryAlreadyPaid))
        } else if b.action != ACTION_TRANSFER {
            (g, Err(GhostError::NotATransferBeneficiary))
        } else if b.recipient != recipient {
            (g, Err(GhostError::WrongRecipient))
        } else if b.token_mint != Some(token_mint) {
            (g, Err(GhostError::WrongMint))
        } else {
            (
                GhostView {
                    beneficiaries: g.beneficiaries.update(
                        index as int,
                        Beneficiary { executed: true, ..b },
                    ),
                    ..g
                },
                Ok(b.amount),
            )
        }
    }
}

/// Settle one transfer entry: the host moves the returned amount of the
/// entry's asset from the vault to the entry's recipient.
pub fn execute_transfer(
    record: &mut GhostAccount,
    recipient: Identity,
    token_mint: Identity,
    beneficiary_index: u8,
) -> (r: Result<u64, GhostError>)
    requires
        old(record)@.wf(),
    ensures
        final(record)@ == spec_execute_transfer(old(record)@, recipient, token_mint, beneficiary_index).0,
        r == spec_execute_transfer(old(record)@, recipient, token_mint, beneficiary_index).1,
        final(record)@.wf(),
        old(record)@.executed ==> final(record)@.executed,
{
    if !record.executed {
        return Err(GhostError::GhostNotExecuted);
    }
    if beneficiary_index >= record.beneficiary_count {
        return Err(GhostError::InvalidBeneficiary);
    }
    let idx: usize = beneficiary_index as usize;
    let b: Beneficiary = record.beneficiaries[idx];
    if b.executed {
        return Err(GhostError::BeneficiaryAlreadyPaid);
    }
    if b.action != ACTION_TRANSFER {
        return Err(GhostError::NotATransferBeneficiary);
    }
    if b.recipient != recipient {
        return Err(GhostError::WrongRecipient);
    }
    let mint_matches: bool = match b.token_mint {
        Some(m) => m == token_mint,
        None => false,
    };
    if !mint_matches {
        return Err(GhostError::WrongMint);
    }
    record.beneficiaries.set(idx, Beneficiary { executed: true, ..b });
    proof {
        assert(record@ =~= spec_execute_transfer(
            old(record)@,
            recipient,
            token_mint,
            beneficiary_index,
        ).0);
    }
    Ok(b.amount)
}

/// How settling one burn entry changes the record: as for a transfer entry,
/// but the entry must be a burn entry and no recipient is involved.
pub open spec fn spec_execute_burn(g: GhostView, token_mint: Identity, index: u8) -> (GhostView, Result<
    u64,
    GhostError,
>) {
    if !g.executed {
        (g, Err(GhostError::GhostNotExecuted))
    } else if index as int >= g.beneficiary_count as int {
        (g, Err(GhostError::InvalidBeneficiary))
    } else {
        let b = g.beneficiaries[index as int];
        if b.executed {
            (g, Err(GhostError::BeneficiaryAlreadyPaid))
        } else if b.action != ACTION_BURN {
            (g, Err(GhostError::NotABurnBeneficiary))
        } else if b.token_mint != Some(token_mint) {
            (g, Err(GhostError::WrongMint))
        } else {
            (
                GhostView {
                    beneficiaries: g.beneficiaries.update(
                        index as int,
                        Beneficiary { executed: true, ..b },
                    ),
                    ..g
                },
                Ok(b.amount),
            )
        }
    }
}

/// Settle one burn entry: the host destroys the returned amount of the
/// entry's asset out of the vault.
pub fn execute_burn(record: &mut GhostAccount, token_mint: Identity, beneficiary_index: u8) -> (r: Result<
    u64,
    GhostError,
>)
    requires
        old(record)@.wf(),
    ensures
        final(record)@ == spec_execute_burn(old(record)@, token_mint, beneficiary_index).0,
        r == spec_execute_burn(old(record)@, token_mint, beneficiary_index).1,
        final(record)@.wf(),
        old(record)@.executed ==> final(record)@.executed,
{
    if !record.executed {
        return Err(GhostError::GhostNotExecuted);
    }
    if beneficiary_index >= record.beneficiary_count {
        return Err(GhostError::InvalidBeneficiary);
    }
    let idx: usize = beneficiary_index as usize;
    let b: Beneficiary = record.beneficiaries[idx];
    if b.executed {
        return Err(GhostError::BeneficiaryAlreadyPaid);
    }
    if b.action != ACTION_BURN {
        return Err(GhostError::NotABurnBeneficiary);
    }
    let mint_matches: bool = match b.token_mint {
        Some(m) => m == token_mint,
        None => false,
    };
    if !mint_matches {
        return Err(GhostError::WrongMint);
    }
    record.beneficiaries.set(idx, Beneficiary { executed: true, ..b });
    proof {
        assert(record@ =~= spec_execute_burn(old(record)@, token_mint, beneficiary_index).0);
    }
    Ok(b.amount)
}

/// Whether a whole-vault transfer is owed, and of how much: the record must
/// be executed, configured with a transfer-action whole-vault recipient that
/// matches the supplied one, and the vault balance must be positive. The
/// record itself does not change, so the payout repeats until the balance is
/// exhausted.
pub open spec fn spec_execute_whole_vault_transfer(
    g: GhostView,
    recipient: Identity,
    vault_balance: u64,
) -> Result<u64, GhostError> {
    if !g.executed {
        Err(GhostError::GhostNotExecuted)
    } else if g.whole_vault_action != ACTION_TRANSFER {
        Err(GhostError::NotATransferBeneficiary)
    } else if g.whole_vault_recipient is None {
        Err(GhostError::InvalidBeneficiary)
    } else if g.whole_vault_recipient->Some_0 != recipient {
        Err(GhostError::WrongRecipient)
    } else if vault_balance == 0 {
        Err(GhostError::Overflow)
    } else {
        Ok(vault_balance)
    }
}

/// Whole-vault settlement by transfer: `vault_balance` is the adapter's live
/// balance of the asset, read at call time; on success the host moves all of
/// it to the stored recipient.
pub fn execute_whole_vault_transfer(
    record: &GhostAccount,
    recipient: Identity,
    vault_balance: u64,
) -> (r: Result<u64, GhostError>)
    ensures
        r == spec_execute_whole_vault_transfer(record@, recipient, vault_balance),
{
    if !record.executed {
        return Err(GhostError::GhostNotExecuted);
    }
    if record.whole_vault_action != ACTION_TRANSFER {
        return Err(GhostError::NotATransferBeneficiary);
    }
    let stored: Identity = match record.whole_vault_recipient {
        Some(rcpt) => rcpt,
        None => {
            return Err(GhostError::InvalidBeneficiary);
        },
    };
    if stored != recipient {
        return Err(GhostError::WrongRecipient);
    }
    if vault_balance == 0 {
        return Err(GhostError::Overflow);
    }
    Ok(vault_balance)
}

/// Whether a whole-vault burn is owed, and of how much: the record must be
/// executed with a burn-action whole-vault configuration and a positive
/// vault balance.
pub open spec fn spec_execute_whole_vault_burn(g: GhostView, vault_balance: u64) -> Result<
    u64,
    GhostError,
> {
    if !g.executed {
        Err(GhostError::GhostNotExecuted)
    } else if g.whole_vault_action != ACTION_BURN {
        Err(GhostError::NotABurnBeneficiary)
    } else if vault_balance == 0 {
        Err(GhostError::Overflow)
    } else {
        Ok(vault_balance)
    }
}

/// Whole-vault settlement by burning: on success the host destroys the whole
/// live balance of the asset.
pub fn execute_whole_vault_burn(record: &GhostAccount, vault_balance: u64) -> (r: Result<
    u64,
    GhostError,
>)
    ensures
        r == spec_execute_whole_vault_burn(record@, vault_balance),
{
    if !record.executed {
        return Err(GhostError::GhostNotExecuted);
    }
    if record.whole_vault_action != ACTION_BURN {
        return Err(GhostError::NotABurnBeneficiary);
    }
    if vault_balance == 0 {
        return Err(GhostError::Overflow);
    }
    Ok(vault_balance)
}

/// Whether a deposit is allowed: owner-only; the amount passes through
/// unchanged.
pub open spec fn spec_deposit_to_vault(g: GhostView, caller: Identity, amount: u64) -> Result<
    u64,
    GhostError,
> {
    if caller != g.owner {
        Err(GhostError::Unauthorized)
    } else {
        Ok(amount)
    }
}

/// Deposit: the owner adds funds to the vault; the host moves the returned
/// amount from the owner into the vault sub-account.
pub fn deposit_to_vault(record: &GhostAccount, caller: Identity, amount: u64) -> (r: Result<
    u64,
    GhostError,
>)
    ensures
        r == spec_deposit_to_vault(record@, caller, amount),
{
    if caller != record.owner {
        return Err(GhostError::Unauthorized);
    }
    Ok(amount)
}

/// Whether a withdrawal is allowed: owner-only and only while the record is
/// not awakened, so an in-flight awakening freezes the vault against the
/// owner draining it.
pub open spec fn spec_withdraw_from_vault(g: GhostView, caller: Identity, amount: u64) -> Result<
    u64,
    GhostError,
> {
    if caller != g.owner {
        Err(GhostError::Unauthorized)
    } else if g.awakened {
        Err(GhostError::GhostAlreadyAwakened)
    } else {
        Ok(amount)
    }
}

/// Withdrawal: the owner takes funds back out of the vault while alive.
pub fn withdraw_from_vault(record: &GhostAccount, caller: Identity, amount: u64) -> (r: Result<
    u64,
    GhostError,
>)
    ensures
        r == spec_withdraw_from_vault(record@, caller, amount),
{
    if caller != record.owner {
        return Err(GhostError::Unauthorized);
    }
    if record.awakened {
        return Err(GhostError::GhostAlreadyAwakened);
    }
    Ok(amount)
}

/// Whether an emergency recovery withdrawal is allowed: any guardian, at any
/// time before execution. This deliberately bypasses the beneficiary ledger;
/// guardians are trusted with fund movement.
pub open spec fn spec_recovery_withdraw(g: GhostView, caller: Identity, amount: u64) -> Result<
    u64,
    GhostError,
> {
    if !g.is_guardian(caller) {
        Err(GhostError::Unauthorized)
    } else if g.executed {
        Err(GhostError::GhostAlreadyExecuted)
    } else {
        Ok(amount)
    }
}

/// Emergency recovery: a guardian moves vault funds to a recipient of the
/// guardian's choosing.
pub fn recovery_withdraw(record: &GhostAccount, caller: Identity, amount: u64) -> (r: Result<
    u64,
    GhostError,
>)
    ensures
        r == spec_recovery_withdraw(record@, caller, amount),
{
    if !is_recovery_wallet(&record.recovery_wallets, caller) {
        return Err(GhostError::Unauthorized);
    }
    if record.executed {
        return Err(GhostError::GhostAlreadyExecuted);
    }
    Ok(amount)
}

/// What abandonment owes: owner-only, in any lifecycle state. The burn share
/// of the stake, rounded down, is destroyed and the remainder returned to the
/// owner; together they account for the whole stake. A stake so large that
/// the computation overflows fails the operation whole.
pub open spec fn spec_abandon_ghost(g: GhostView, caller: Identity) -> Result<
    (u64, u64),
    GhostError,
> {
    if caller != g.owner {
        Err(GhostError::Unauthorized)
    } else if g.staked_ghost * BURN_ON_ABANDON_BPS > u64::MAX {
        Err(GhostError::Overflow)
    } else {
        let burn = g.staked_ghost * BURN_ON_ABANDON_BPS / (BPS_DENOMINATOR as int);
        Ok((burn as u64, (g.staked_ghost - burn) as u64))
    }
}

/// Abandonment: the owner's voluntary exit. Returns `(burned, returned)`;
/// the host destroys the first amount of the escrowed stake, hands the second
/// back to the owner, and deallocates the record — it ceases to exist.
pub fn abandon_ghost(record: &GhostAccount, caller: Identity) -> (r: Result<
    (u64, u64),
    GhostError,
>)
    requires
        record@.wf(),
    ensures
        r == spec_abandon_ghost(record@, caller),
        r matches Ok(amounts) ==> amounts.0 + amounts.1 == record@.staked_ghost,
{
    if caller != record.owner {
        return Err(GhostError::Unauthorized);
    }
    let burn: u64 = match record.staked_ghost.checked_mul(BURN_ON_ABANDON_BPS) {
        None => {
            return Err(GhostError::Overflow);
        },
        Some(scaled) => scaled / BPS_DENOMINATOR,
    };
    proof {
        lemma_bps_fraction_le(record.staked_ghost, BURN_ON_ABANDON_BPS);
    }
    let returned: u64 = record.staked_ghost - burn;
    Ok((burn, returned))
}

} // verus!
