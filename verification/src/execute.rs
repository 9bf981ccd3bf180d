//! The execution gate: validation of every execution precondition, and the
//! one-time, irreversible transition of a transaction to "executed".
//!
//! Dispatching the transaction's instructions is the caller's concern (it is
//! an external capability); the intended protocol is: call
//! [`validate_execution`], dispatch the instruction batch atomically, and
//! only if every dispatch succeeded call [`execute_transaction`], which
//! validates the preconditions once more and applies the transition. A
//! successful execution mints the [`WalletAuthority`] capability that the
//! wallet's own governance calls demand.

use vstd::prelude::*;

use crate::state::{count_approvals, is_owner, Pubkey, Smallet, Transaction};
use crate::transaction::approval_status;
use crate::wallet::WalletAuthority;
use crate::{ErrorCode, NOT_EXECUTED, NO_ETA};

verus! {

/// Why an execution attempt by `caller` at time `now` is rejected, if it is:
/// the guard of [`approval_status`]; then the timelock (a real ETA must have
/// elapsed); then the grace window (a real ETA plus the grace period must not
/// lie in the past); then the approval threshold; and finally `caller` must
/// be a current owner, which keeps a non-owner from triggering execution even
/// with sufficient prior approvals.
pub open spec fn execution_status(
    smallet: Smallet,
    tx: Transaction,
    caller: Pubkey,
    now: i64,
) -> Option<ErrorCode> {
    match approval_status(smallet, tx) {
        Some(e) => Some(e),
        None => if tx.eta != NO_ETA && now < tx.eta {
            Some(ErrorCode::TransactionNotReady)
        } else if tx.eta != NO_ETA && (tx.eta + smallet.grace_period > i64::MAX || tx.eta
            + smallet.grace_period < i64::MIN) {
            Some(ErrorCode::Overflow)
        } else if tx.eta != NO_ETA && now > tx.eta + smallet.grace_period {
            Some(ErrorCode::TransactionIsStale)
        } else if count_approvals(tx.signers@) < smallet.threshold {
            Some(ErrorCode::NotEnoughSigners)
        } else if !is_owner(smallet.owners@, caller) {
            Some(ErrorCode::InvalidOwner)
        } else {
            None
        },
    }
}

/// Checks every execution precondition without changing any state: the
/// result is `Ok` exactly when an execution attempt by `caller` at time `now`
/// would be honored.
pub fn validate_execution(smallet: &Smallet, tx: &Transaction, caller: Pubkey, now: i64) -> (r:
    Result<(), ErrorCode>)
    ensures
        r is Ok <==> execution_status(*smallet, *tx, caller, now) is None,
        r matches Err(e) ==> execution_status(*smallet, *tx, caller, now) == Some(e),
{
    if !(tx.smallet == smallet.key) {
        return Err(ErrorCode::KeyMismatch);
    }
    if tx.owner_set_seqno != smallet.owner_set_seqno {
        return Err(ErrorCode::OwnerSetChanged);
    }
    if tx.executed_at != NOT_EXECUTED {
        return Err(ErrorCode::AlreadyExecuted);
    }
    if tx.eta != NO_ETA {
        if now < tx.eta {
            return Err(ErrorCode::TransactionNotReady);
        }
        let deadline = match tx.eta.checked_add(smallet.grace_period) {
            Some(d) => d,
            None => {
                return Err(ErrorCode::Overflow);
            },
        };
        if now > deadline {
            return Err(ErrorCode::TransactionIsStale);
        }
    }
    let sig_count = tx.num_signers();
    if (sig_count as u64) < smallet.threshold {
        return Err(ErrorCode::NotEnoughSigners);
    }
    if smallet.owner_index_opt(caller).is_none() {
        return Err(ErrorCode::InvalidOwner);
    }
    Ok(())
}

/// Executes the transaction: re-checks every precondition of
/// [`validate_execution`] and, if all hold, irreversibly stamps the
/// transaction with the executor and the execution time, and mints the
/// [`WalletAuthority`] capability of the owning wallet.
///
/// The clock value may not equal the [`NOT_EXECUTED`] sentinel: stamping it
/// would make the executed transaction look unexecuted and break the one-way
/// transition.
pub fn execute_transaction(
    smallet: &Smallet,
    tx: &mut Transaction,
    executor: Pubkey,
    now: i64,
) -> (r: Result<WalletAuthority, ErrorCode>)
    requires
        now != NOT_EXECUTED,
    ensures
        match r {
            Ok(auth) => {
                &&& execution_status(*smallet, *old(tx), executor, now) is None
                &&& final(tx).executed_at == now
                &&& final(tx).executed_at != NOT_EXECUTED
                &&& final(tx).executor == executor
                &&& final(tx).smallet == old(tx).smallet
                &&& final(tx).index == old(tx).index
                &&& final(tx).proposer == old(tx).proposer
                &&& final(tx).instructions@ == old(tx).instructions@
                &&& final(tx).signers@ == old(tx).signers@
                &&& final(tx).owner_set_seqno == old(tx).owner_set_seqno
                &&& final(tx).eta == old(tx).eta
                &&& auth.spec_key() == smallet.key
            },
            Err(e) => {
                &&& execution_status(*smallet, *old(tx), executor, now) == Some(e)
                &&& *final(tx) == *old(tx)
            },
        },
{
    match validate_execution(smallet, &*tx, executor, now) {
        Ok(()) => {},
        Err(e) => {
            return Err(e);
        },
    }
    tx.executor = executor;
    tx.executed_at = now;
    Ok(WalletAuthority::mint(smallet.key))
}

} // verus!
