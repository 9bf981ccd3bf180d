//! The laws of the authorization engine that relate several operations, each
//! stated over the same specification functions the operations' contracts
//! use.

use vstd::prelude::*;

use crate::execute::execution_status;
use crate::state::{
    count_approvals, is_owner, lemma_owner_position, owner_position, Pubkey, Smallet, Transaction,
};
use crate::transaction::approval_error;
use crate::{ErrorCode, NOT_EXECUTED, NO_ETA};

verus! {

/// Law: execution is honored exactly when the transaction belongs to the
/// wallet, the owner-set snapshot is still current, the transaction is
/// unexecuted, the timelock has elapsed (or there is none), the grace window
/// has not closed (or there is no ETA), the approvals meet the threshold, and
/// the caller is a current owner.
///
/// Inputs whose ETA plus grace period does not fit the time type are left
/// out: on those, execution is rejected with an overflow error instead.
pub proof fn lemma_execution_exact(smallet: Smallet, tx: Transaction, caller: Pubkey, now: i64)
    requires
        tx.eta != NO_ETA ==> i64::MIN <= tx.eta + smallet.grace_period <= i64::MAX,
    ensures
        execution_status(smallet, tx, caller, now) is None <==> {
            &&& tx.smallet == smallet.key
            &&& tx.owner_set_seqno == smallet.owner_set_seqno
            &&& tx.executed_at == NOT_EXECUTED
            &&& (tx.eta == NO_ETA || now >= tx.eta)
            &&& (tx.eta == NO_ETA || now <= tx.eta + smallet.grace_period)
            &&& count_approvals(tx.signers@) >= smallet.threshold
            &&& is_owner(smallet.owners@, caller)
        },
{
}

/// Law: once a transaction has been executed, every subsequent approval,
/// unapproval or execution attempt on it is rejected as already executed,
/// whoever asks and whenever.
pub proof fn lemma_executed_transaction_is_frozen(
    smallet: Smallet,
    tx: Transaction,
    owner: Pubkey,
    caller: Pubkey,
    now: i64,
)
    requires
        tx.smallet == smallet.key,
        tx.owner_set_seqno == smallet.owner_set_seqno,
        tx.executed_at != NOT_EXECUTED,
    ensures
        approval_error(smallet, tx, owner) == Some(ErrorCode::AlreadyExecuted),
        execution_status(smallet, tx, caller, now) == Some(ErrorCode::AlreadyExecuted),
{
}

/// Law: once the wallet's owner set has changed from the transaction's
/// snapshot, every subsequent approval, unapproval or execution attempt on it
/// is rejected as owner-set-changed, whoever asks and whenever — the
/// transaction is permanently invalidated.
pub proof fn lemma_owner_set_change_is_permanent(
    smallet: Smallet,
    tx: Transaction,
    owner: Pubkey,
    caller: Pubkey,
    now: i64,
)
    requires
        tx.smallet == smallet.key,
        tx.owner_set_seqno != smallet.owner_set_seqno,
    ensures
        approval_error(smallet, tx, owner) == Some(ErrorCode::OwnerSetChanged),
        execution_status(smallet, tx, caller, now) == Some(ErrorCode::OwnerSetChanged),
{
}

/// Law: an unapproval followed immediately by an approval for the same owner
/// on the same transaction restores the exact prior signer bitmap, provided
/// that owner had approved. (If the owner had not approved, the pair instead
/// ends with that owner approved.)
pub proof fn lemma_unapprove_approve_round_trip(smallet: Smallet, tx: Transaction, owner: Pubkey)
    requires
        approval_error(smallet, tx, owner) is None,
        tx.consistent_with(smallet),
        ({
            let pos = owner_position(smallet.owners@, owner).unwrap();
            tx.signers@[pos]
        }),
    ensures
        ({
            let pos = owner_position(smallet.owners@, owner).unwrap();
            tx.signers@.update(pos, false).update(pos, true) == tx.signers@
        }),
{
    lemma_owner_position(smallet.owners@, owner);
    let pos = owner_position(smallet.owners@, owner).unwrap();
    assert(tx.signers@.update(pos, false).update(pos, true) =~= tx.signers@);
}

/// Law: approvals are idempotent per owner — re-approving an owner that has
/// already approved leaves the signer bitmap unchanged, and withdrawing an
/// approval that was never given leaves it unchanged too.
pub proof fn lemma_approval_idempotent(smallet: Smallet, tx: Transaction, owner: Pubkey)
    requires
        approval_error(smallet, tx, owner) is None,
        tx.consistent_with(smallet),
    ensures
        ({
            let pos = owner_position(smallet.owners@, owner).unwrap();
            &&& tx.signers@[pos] ==> tx.signers@.update(pos, true) == tx.signers@
            &&& !tx.signers@[pos] ==> tx.signers@.update(pos, false) == tx.signers@
        }),
{
    lemma_owner_position(smallet.owners@, owner);
    let pos = owner_position(smallet.owners@, owner).unwrap();
    if tx.signers@[pos] {
        assert(tx.signers@.update(pos, true) =~= tx.signers@);
    } else {
        assert(tx.signers@.update(pos, false) =~= tx.signers@);
    }
}

} // verus!
