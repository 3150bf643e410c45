//! The beneficiary ledger: owner-side mutation, guardian-side pruning, and
//! the whole-vault payout target.

use vstd::prelude::*;

use crate::errors::GhostError;
use crate::state::ACTION_TRANSFER;
use crate::state::Beneficiary;
use crate::state::GhostAccount;
use crate::state::GhostView;
use crate::state::Identity;
use crate::state::MAX_BENEFICIARIES;
use crate::state::empty_beneficiaries;
use crate::state::is_recovery_wallet;

verus! {

/// The ledger after removing the entry at `index` from a list of `count`
/// live entries: the entries behind it shift left one slot, and the slot
/// freed at `count - 1` reverts to the empty entry.
pub open spec fn spec_remove_at(bs: Seq<Beneficiary>, index: int, count: int) -> Seq<Beneficiary> {
    Seq::new(
        bs.len(),
        |i: int|
            if index <= i && i < count - 1 {
                bs[i + 1]
            } else if i == count - 1 {
                Beneficiary::empty()
            } else {
                bs[i]
            },
    )
}

/// How appending changes the record: owner-only, refused while awakened or
/// paused or when the ledger is full; the new entry lands at the end of the
/// live prefix with its settled flag clear.
pub open spec fn spec_add_beneficiary(
    g: GhostView,
    caller: Identity,
    recipient: Identity,
    amount: u64,
    token_mint: Option<Identity>,
    action: u8,
) -> (GhostView, Result<(), GhostError>) {
    if caller != g.owner {
        (g, Err(GhostError::Unauthorized))
    } else if g.awakened {
        (g, Err(GhostError::GhostAlreadyAwakened))
    } else if g.paused {
        (g, Err(GhostError::GhostPausedError))
    } else if g.beneficiary_count as int >= MAX_BENEFICIARIES as int {
        (g, Err(GhostError::TooManyBeneficiaries))
    } else {
        (
            GhostView {
                beneficiary_count: (g.beneficiary_count + 1) as u8,
                beneficiaries: g.beneficiaries.update(
                    g.beneficiary_count as int,
                    Beneficiary { recipient, amount, token_mint, action, executed: false },
                ),
                ..g
            },
            Ok(()),
        )
    }
}

/// Append a payout instruction to the ledger.
pub fn add_beneficiary(
    record: &mut GhostAccount,
    caller: Identity,
    recipient: Identity,
    amount: u64,
    token_mint: Option<Identity>,
    action: u8,
) -> (r: Result<(), GhostError>)
    requires
        old(record)@.wf(),
    ensures
        final(record)@ == spec_add_beneficiary(old(record)@, caller, recipient, amount, token_mint, action).0,
        r == spec_add_beneficiary(old(record)@, caller, recipient, amount, token_mint, action).1,
        final(record)@.wf(),
        old(record)@.executed ==> final(record)@.executed,
{
    if caller != record.owner {
        return Err(GhostError::Unauthorized);
    }
    if record.awakened {
        return Err(GhostError::GhostAlreadyAwakened);
    }
    if record.paused {
        return Err(GhostError::GhostPausedError);
    }
    if record.beneficiary_count as usize >= MAX_BENEFICIARIES {
        return Err(GhostError::TooManyBeneficiaries);
    }
    let idx: usize = record.beneficiary_count as usize;
    record.beneficiaries.set(
        idx,
        Beneficiary { recipient, amount, token_mint, action, executed: false },
    );
    record.beneficiary_count = record.beneficiary_count + 1;
    proof {
        assert(record@ =~= spec_add_beneficiary(
            old(record)@,
            caller,
            recipient,
            amount,
            token_mint,
            action,
        ).0);
    }
    Ok(())
}

/// Shared removal step: shift the entries behind `index` one slot left,
/// revert the freed slot to the empty entry, and shorten the live prefix.
fn remove_slot(record: &mut GhostAccount, index: u8)
    requires
        old(record)@.wf(),
        (index as int) < old(record)@.beneficiary_count as int,
    ensures
        final(record)@ == (GhostView {
            beneficiary_count: (old(record)@.beneficiary_count - 1) as u8,
            beneficiaries: spec_remove_at(
                old(record)@.beneficiaries,
                index as int,
                old(record)@.beneficiary_count as int,
            ),
            ..old(record)@
        }),
        final(record)@.wf(),
{
    let count: usize = record.beneficiary_count as usize;
    let idx: usize = index as usize;
    let mut i: usize = idx;
    while i + 1 < count
        invariant
            idx <= i,
            i + 1 <= count,
            count == old(record)@.beneficiary_count as int,
            idx == index as int,
            count <= MAX_BENEFICIARIES,
            old(record)@.wf(),
            record@.beneficiaries.len() == MAX_BENEFICIARIES as int,
            record@ == (GhostView { beneficiaries: record@.beneficiaries, ..old(record)@ }),
            forall|j: int|
                idx <= j < i as int ==> record@.beneficiaries[j] == old(record)@.beneficiaries[j + 1],
            forall|j: int|
                (0 <= j < idx || i as int <= j < MAX_BENEFICIARIES as int)
                    ==> record@.beneficiaries[j] == old(record)@.beneficiaries[j],
        decreases count - i,
    {
        let next: Beneficiary = record.beneficiaries[i + 1];
        record.beneficiaries.set(i, next);
        i = i + 1;
    }
    record.beneficiaries.set(count - 1, Beneficiary::default());
    record.beneficiary_count = record.beneficiary_count - 1;
    proof {
        assert(record@.beneficiaries =~= spec_remove_at(
            old(record)@.beneficiaries,
            index as int,
            old(record)@.beneficiary_count as int,
        ));
        assert(record@ =~= (GhostView {
            beneficiary_count: (old(record)@.beneficiary_count - 1) as u8,
            beneficiaries: spec_remove_at(
                old(record)@.beneficiaries,
                index as int,
                old(record)@.beneficiary_count as int,
            ),
            ..old(record)@
        }));
    }
}

/// How owner-side removal changes the record: owner-only, refused while
/// awakened; the index must address a live entry; the survivors keep their
/// relative order.
pub open spec fn spec_remove_beneficiary(g: GhostView, caller: Identity, index: u8) -> (GhostView, Result<
    (),
    GhostError,
>) {
    if caller != g.owner {
        (g, Err(GhostError::Unauthorized))
    } else if g.awakened {
        (g, Err(GhostError::GhostAlreadyAwakened))
    } else if index as int >= g.beneficiary_count as int {
        (g, Err(GhostError::InvalidBeneficiary))
    } else {
        (
            GhostView {
                beneficiary_count: (g.beneficiary_count - 1) as u8,
                beneficiaries: spec_remove_at(g.beneficiaries, index as int, g.beneficiary_count as int),
                ..g
            },
            Ok(()),
        )
    }
}

/// Remove one payout instruction and left-compact the ledger.
pub fn remove_beneficiary(record: &mut GhostAccount, caller: Identity, index: u8) -> (r: Result<
    (),
    GhostError,
>)
    requires
        old(record)@.wf(),
    ensures
        final(record)@ == spec_remove_beneficiary(old(record)@, caller, index).0,
        r == spec_remove_beneficiary(old(record)@, caller, index).1,
        final(record)@.wf(),
        old(record)@.executed ==> final(record)@.executed,
{
    if caller != record.owner {
        return Err(GhostError::Unauthorized);
    }
    if record.awakened {
        return Err(GhostError::GhostAlreadyAwakened);
    }
    if index >= record.beneficiary_count {
        return Err(GhostError::InvalidBeneficiary);
    }
    remove_slot(record, index);
    Ok(())
}

/// How correction changes the record: owner-only, refused while awakened or
/// paused; overwrites every field of the addressed entry and clears its
/// settled flag.
pub open spec fn spec_update_beneficiary(
    g: GhostView,
    caller: Identity,
    index: u8,
    recipient: Identity,
    amount: u64,
    token_mint: Option<Identity>,
    action: u8,
) -> (GhostView, Result<(), GhostError>) {
    if caller != g.owner {
        (g, Err(GhostError::Unauthorized))
    } else if g.awakened {
        (g, Err(GhostError::GhostAlreadyAwakened))
    } else if g.paused {
        (g, Err(GhostError::GhostPausedError))
    } else if index as int >= g.beneficiary_count as int {
        (g, Err(GhostError::InvalidBeneficiary))
    } else {
        (
            GhostView {
                beneficiaries: g.beneficiaries.update(
                    index as int,
                    Beneficiary { recipient, amount, token_mint, action, executed: false },
                ),
                ..g
            },
            Ok(()),
        )
    }
}

/// Overwrite one payout instruction; the correction resets its settled flag.
pub fn update_beneficiary(
    record: &mut GhostAccount,
    caller: Identity,
    index: u8,
    recipient: Identity,
    amount: u64,
    token_mint: Option<Identity>,
    action: u8,
) -> (r: Result<(), GhostError>)
    requires
        old(record)@.wf(),
    ensures
        final(record)@ == spec_update_beneficiary(
            old(record)@,
            caller,
            index,
            recipient,
            amount,
            token_mint,
            action,
        ).0,
        r == spec_update_beneficiary(
            old(record)@,
            caller,
            index,
            recipient,
            amount,
            token_mint,
            action,
        ).1,
        final(record)@.wf(),
        old(record)@.executed ==> final(record)@.executed,
{
    if caller != record.owner {
        return Err(GhostError::Unauthorized);
    }
    if record.awakened {
        return Err(GhostError::GhostAlreadyAwakened);
    }
    if record.paused {
        return Err(GhostError::GhostPausedError);
    }
    if index >= record.beneficiary_count {
        return Err(GhostError::InvalidBeneficiary);
    }
    record.beneficiaries.set(
        index as usize,
        Beneficiary { recipient, amount, token_mint, action, executed: false },
    );
    proof {
        assert(record@ =~= spec_update_beneficiary(
            old(record)@,
            caller,
            index,
            recipient,
            amount,
            token_mint,
            action,
        ).0);
    }
    Ok(())
}

/// How guardian-side removal changes the record: any guardian, refused once
/// executed; otherwise like the owner-side removal, and usable even while
/// awakened.
pub open spec fn spec_guardian_remove_beneficiary(g: GhostView, caller: Identity, index: u8) -> (GhostView, Result<
    (),
    GhostError,
>) {
    if !g.is_guardian(caller) {
        (g, Err(GhostError::Unauthorized))
    } else if g.executed {
        (g, Err(GhostError::GhostAlreadyExecuted))
    } else if index as int >= g.beneficiary_count as int {
        (g, Err(GhostError::InvalidBeneficiary))
    } else {
        (
            GhostView {
                beneficiary_count: (g.beneficiary_count - 1) as u8,
                beneficiaries: spec_remove_at(g.beneficiaries, index as int, g.beneficiary_count as int),
                ..g
            },
            Ok(()),
        )
    }
}

/// A guardian prunes one payout instruction.
pub fn guardian_remove_beneficiary(record: &mut GhostAccount, caller: Identity, index: u8) -> (r: Result<
    (),
    GhostError,
>)
    requires
        old(record)@.wf(),
    ensures
        final(record)@ == spec_guardian_remove_beneficiary(old(record)@, caller, index).0,
        r == spec_guardian_remove_beneficiary(old(record)@, caller, index).1,
        final(record)@.wf(),
        old(record)@.executed ==> final(record)@.executed,
{
    if !is_recovery_wallet(&record.recovery_wallets, caller) {
        return Err(GhostError::Unauthorized);
    }
    if record.executed {
        return Err(GhostError::GhostAlreadyExecuted);
    }
    if index >= record.beneficiary_count {
        return Err(GhostError::InvalidBeneficiary);
    }
    remove_slot(record, index);
    Ok(())
}

/// How a guardian wipe changes the record: any guardian, refused once
/// executed; every slot reverts to the empty entry and the count to zero.
pub open spec fn spec_guardian_clear_beneficiaries(g: GhostView, caller: Identity) -> (GhostView, Result<
    (),
    GhostError,
>) {
    if !g.is_guardian(caller) {
        (g, Err(GhostError::Unauthorized))
    } else if g.executed {
        (g, Err(GhostError::GhostAlreadyExecuted))
    } else {
        (
            GhostView {
                beneficiary_count: 0,
                beneficiaries: Seq::new(MAX_BENEFICIARIES as nat, |i: int| Beneficiary::empty()),
                ..g
            },
            Ok(()),
        )
    }
}

/// A guardian wipes the whole ledger.
pub fn guardian_clear_beneficiaries(record: &mut GhostAccount, caller: Identity) -> (r: Result<
    (),
    GhostError,
>)
    requires
        old(record)@.wf(),
    ensures
        final(record)@ == spec_guardian_clear_beneficiaries(old(record)@, caller).0,
        r == spec_guardian_clear_beneficiaries(old(record)@, caller).1,
        final(record)@.wf(),
        old(record)@.executed ==> final(record)@.executed,
{
    if !is_recovery_wallet(&record.recovery_wallets, caller) {
        return Err(GhostError::Unauthorized);
    }
    if record.executed {
        return Err(GhostError::GhostAlreadyExecuted);
    }
    record.beneficiaries = empty_beneficiaries();
    record.beneficiary_count = 0;
    proof {
        assert(record@ =~= spec_guardian_clear_beneficiaries(old(record)@, caller).0);
    }
    Ok(())
}

/// The whole-vault fields after setting or clearing the target: clearing the
/// recipient also resets the action to its default.
pub open spec fn spec_whole_vault_fields(g: GhostView, recipient: Option<Identity>, action: u8) -> GhostView {
    GhostView {
        whole_vault_recipient: recipient,
        whole_vault_action: if recipient is Some {
            action
        } else {
            ACTION_TRANSFER
        },
        ..g
    }
}

/// How the owner sets the whole-vault target: refused once awakened or
/// executed.
pub open spec fn spec_set_whole_vault_recipient(
    g: GhostView,
    caller: Identity,
    recipient: Option<Identity>,
    action: u8,
) -> (GhostView, Result<(), GhostError>) {
    if caller != g.owner {
        (g, Err(GhostError::Unauthorized))
    } else if g.awakened {
        (g, Err(GhostError::GhostAlreadyAwakened))
    } else if g.executed {
        (g, Err(GhostError::GhostAlreadyExecuted))
    } else {
        (spec_whole_vault_fields(g, recipient, action), Ok(()))
    }
}

/// The owner sets, redirects or clears the whole-vault payout target.
pub fn set_whole_vault_recipient(
    record: &mut GhostAccount,
    caller: Identity,
    recipient: Option<Identity>,
    action: u8,
) -> (r: Result<(), GhostError>)
    requires
        old(record)@.wf(),
    ensures
        final(record)@ == spec_set_whole_vault_recipient(old(record)@, caller, recipient, action).0,
        r == spec_set_whole_vault_recipient(old(record)@, caller, recipient, action).1,
        final(record)@.wf(),
        old(record)@.executed ==> final(record)@.executed,
{
    if caller != record.owner {
        return Err(GhostError::Unauthorized);
    }
    if record.awakened {
        return Err(GhostError::GhostAlreadyAwakened);
    }
    if record.executed {
        return Err(GhostError::GhostAlreadyExecuted);
    }
    record.whole_vault_recipient = recipient;
    record.whole_vault_action = match recipient {
        Some(_) => action,
        None => ACTION_TRANSFER,
    };
    proof {
        assert(record@ =~= spec_set_whole_vault_recipient(old(record)@, caller, recipient, action).0);
    }
    Ok(())
}

/// How a guardian sets the whole-vault target: refused only once executed, so
/// a guardian can still redirect mid-grace.
pub open spec fn spec_guardian_set_whole_vault_recipient(
    g: GhostView,
    caller: Identity,
    recipient: Option<Identity>,
    action: u8,
) -> (GhostView, Result<(), GhostError>) {
    if !g.is_guardian(caller) {
        (g, Err(GhostError::Unauthorized))
    } else if g.executed {
        (g, Err(GhostError::GhostAlreadyExecuted))
    } else {
        (spec_whole_vault_fields(g, recipient, action), Ok(()))
    }
}

/// A guardian sets, redirects or clears the whole-vault payout target.
pub fn guardian_set_whole_vault_recipient(
    record: &mut GhostAccount,
    caller: Identity,
    recipient: Option<Identity>,
    action: u8,
) -> (r: Result<(), GhostError>)
    requires
        old(record)@.wf(),
    ensures
        final(record)@ == spec_guardian_set_whole_vault_recipient(
            old(record)@,
            caller,
            recipient,
            action,
        ).0,
        r == spec_guardian_set_whole_vault_recipient(old(record)@, caller, recipient, action).1,
        final(record)@.wf(),
        old(record)@.executed ==> final(record)@.executed,
{
    if !is_recovery_wallet(&record.recovery_wallets, caller) {
        return Err(GhostError::Unauthorized);
    }
    if record.executed {
        return Err(GhostError::GhostAlreadyExecuted);
    }
    record.whole_vault_recipient = recipient;
    record.whole_vault_action = match recipient {
        Some(_) => action,
        None => ACTION_TRANSFER,
    };
    proof {
        assert(record@ =~= spec_guardian_set_whole_vault_recipient(
            old(record)@,
            caller,
            recipient,
            action,
        ).0);
    }
    Ok(())
}

} // verus!
