//! The transaction ledger and the approval tracker: proposing a transaction
//! against a wallet, and setting or clearing per-owner approvals on it.

use vstd::prelude::*;

use crate::state::{
    is_owner, lemma_owner_position, owner_position, pubkey_zero, Pubkey, Smallet, Transaction,
    TXInstruction,
};
use crate::{ErrorCode, MAX_DELAY_SECONDS, NOT_EXECUTED, NO_ETA};

verus! {

/// The guard shared by every approval mutation (and re-checked before
/// execution): the transaction must belong to the wallet, the wallet's
/// owner set must not have changed since the transaction was proposed, and
/// the transaction must not have been executed. A sequence-number mismatch is
/// permanent: no later call can ever clear it.
pub open spec fn approval_status(smallet: Smallet, tx: Transaction) -> Option<ErrorCode> {
    if tx.smallet != smallet.key {
        Some(ErrorCode::KeyMismatch)
    } else if tx.owner_set_seqno != smallet.owner_set_seqno {
        Some(ErrorCode::OwnerSetChanged)
    } else if tx.executed_at != NOT_EXECUTED {
        Some(ErrorCode::AlreadyExecuted)
    } else {
        None
    }
}

/// Why an approval or unapproval by `owner` is rejected, if it is: the guard
/// of [`approval_status`], then membership of `owner` in the current owner
/// list.
pub open spec fn approval_error(smallet: Smallet, tx: Transaction, owner: Pubkey) -> Option<
    ErrorCode,
> {
    match approval_status(smallet, tx) {
        Some(e) => Some(e),
        None => if is_owner(smallet.owners@, owner) {
            None
        } else {
            Some(ErrorCode::InvalidOwner)
        },
    }
}

/// Why a proposal is rejected, if it is: the proposer must be a current
/// owner; with a minimum delay configured, the ETA must honor it; a real ETA
/// must be non-negative, not in the past, and at most one year out; and the
/// transaction counter and the time arithmetic must not overflow.
pub open spec fn create_transaction_error(
    smallet: Smallet,
    proposer: Pubkey,
    eta: i64,
    now: i64,
) -> Option<ErrorCode> {
    if !is_owner(smallet.owners@, proposer) {
        Some(ErrorCode::InvalidOwner)
    } else if smallet.minimum_delay != 0 && now + smallet.minimum_delay > i64::MAX {
        Some(ErrorCode::Overflow)
    } else if smallet.minimum_delay != 0 && eta < now + smallet.minimum_delay {
        Some(ErrorCode::InvalidETA)
    } else if eta != NO_ETA && eta < 0 {
        Some(ErrorCode::InvalidETA)
    } else if eta != NO_ETA && (eta - now > i64::MAX || eta - now < i64::MIN) {
        Some(ErrorCode::Overflow)
    } else if eta != NO_ETA && eta - now < 0 {
        Some(ErrorCode::InvalidETA)
    } else if eta != NO_ETA && eta - now > MAX_DELAY_SECONDS {
        Some(ErrorCode::DelayTooHigh)
    } else if smallet.num_transactions == u64::MAX {
        Some(ErrorCode::Overflow)
    } else {
        None
    }
}

/// Sets the approval of `owner` on the transaction.
///
/// The owner's position is resolved against the wallet's *current* owner
/// list while the bitmap was sized against the list at proposal time; the
/// owner-set sequence guard of [`approval_status`] is what makes the two
/// agree.
pub fn approve(smallet: &Smallet, tx: &mut Transaction, owner: Pubkey) -> (r: Result<
    (),
    ErrorCode,
>)
    requires
        old(tx).consistent_with(*smallet),
    ensures
        final(tx).consistent_with(*smallet),
        match r {
            Ok(()) => {
                &&& approval_error(*smallet, *old(tx), owner) is None
                &&& final(tx).same_except_signers(*old(tx))
                &&& final(tx).signers@.len() == old(tx).signers@.len()
                &&& final(tx).signers@ == old(tx).signers@.update(
                    owner_position(smallet.owners@, owner).unwrap(),
                    true,
                )
            },
            Err(e) => {
                &&& approval_error(*smallet, *old(tx), owner) == Some(e)
                &&& *final(tx) == *old(tx)
            },
        },
{
    if !(tx.smallet == smallet.key) {
        return Err(ErrorCode::KeyMismatch);
    }
    if tx.owner_set_seqno != smallet.owner_set_seqno {
        return Err(ErrorCode::OwnerSetChanged);
    }
    if tx.executed_at != NOT_EXECUTED {
        return Err(ErrorCode::AlreadyExecuted);
    }
    let index = match smallet.owner_index_opt(owner) {
        Some(i) => i,
        None => {
            return Err(ErrorCode::InvalidOwner);
        },
    };
    proof {
        lemma_owner_position(smallet.owners@, owner);
    }
    tx.signers.set(index, true);
    Ok(())
}

/// Clears the approval of `owner` on the transaction. Guarded exactly as
/// [`approve`] is.
pub fn unapprove(smallet: &Smallet, tx: &mut Transaction, owner: Pubkey) -> (r: Result<
    (),
    ErrorCode,
>)
    requires
        old(tx).consistent_with(*smallet),
    ensures
        final(tx).consistent_with(*smallet),
        match r {
            Ok(()) => {
                &&& approval_error(*smallet, *old(tx), owner) is None
                &&& final(tx).same_except_signers(*old(tx))
                &&& final(tx).signers@.len() == old(tx).signers@.len()
                &&& final(tx).signers@ == old(tx).signers@.update(
                    owner_position(smallet.owners@, owner).unwrap(),
                    false,
                )
            },
            Err(e) => {
                &&& approval_error(*smallet, *old(tx), owner) == Some(e)
                &&& *final(tx) == *old(tx)
            },
        },
{
    if !(tx.smallet == smallet.key) {
        return Err(ErrorCode::KeyMismatch);
    }
    if tx.owner_set_seqno != smallet.owner_set_seqno {
        return Err(ErrorCode::OwnerSetChanged);
    }
    if tx.executed_at != NOT_EXECUTED {
        return Err(ErrorCode::AlreadyExecuted);
    }
    let index = match smallet.owner_index_opt(owner) {
        Some(i) => i,
        None => {
            return Err(ErrorCode::InvalidOwner);
        },
    };
    proof {
        lemma_owner_position(smallet.owners@, owner);
    }
    tx.signers.set(index, false);
    Ok(())
}

/// Creates a new transaction with a time delay, automatically approved by
/// its proposer, who must be one of the owners of the wallet.
///
/// On success the wallet's transaction counter advances by one and the new
/// transaction carries: the next index, a signer bitmap sized to the current
/// owner list with only the proposer's position set, a snapshot of the
/// owner-set sequence number, and the given ETA. It is not executed yet.
pub fn create_transaction_with_timelock(
    smallet: &mut Smallet,
    proposer: Pubkey,
    instructions: Vec<TXInstruction>,
    eta: i64,
    now: i64,
) -> (r: Result<Transaction, ErrorCode>)
    requires
        old(smallet).wf(),
    ensures
        final(smallet).wf(),
        match r {
            Ok(tx) => {
                &&& create_transaction_error(*old(smallet), proposer, eta, now) is None
                &&& final(smallet).num_transactions == old(smallet).num_transactions + 1
                &&& final(smallet).key == old(smallet).key
                &&& final(smallet).base == old(smallet).base
                &&& final(smallet).bump == old(smallet).bump
                &&& final(smallet).threshold == old(smallet).threshold
                &&& final(smallet).minimum_delay == old(smallet).minimum_delay
                &&& final(smallet).grace_period == old(smallet).grace_period
                &&& final(smallet).owner_set_seqno == old(smallet).owner_set_seqno
                &&& final(smallet).owners@ == old(smallet).owners@
                &&& tx.smallet == old(smallet).key
                &&& tx.index == old(smallet).num_transactions
                &&& tx.proposer == proposer
                &&& tx.instructions@ == instructions@
                &&& tx.signers@.len() == old(smallet).owners@.len()
                &&& tx.signers@ == Seq::new(old(smallet).owners@.len(), |i: int| false).update(
                    owner_position(old(smallet).owners@, proposer).unwrap(),
                    true,
                )
                &&& tx.owner_set_seqno == old(smallet).owner_set_seqno
                &&& tx.eta == eta
                &&& tx.executor == pubkey_zero()
                &&& tx.executed_at == NOT_EXECUTED
                &&& tx.consistent_with(*final(smallet))
            },
            Err(e) => {
                &&& create_transaction_error(*old(smallet), proposer, eta, now) == Some(e)
                &&& *final(smallet) == *old(smallet)
            },
        },
{
    let owner_index = match smallet.owner_index_opt(proposer) {
        Some(i) => i,
        None => {
            return Err(ErrorCode::InvalidOwner);
        },
    };
    proof {
        lemma_owner_position(smallet.owners@, proposer);
    }
    if smallet.minimum_delay != 0 {
        let floor = match now.checked_add(smallet.minimum_delay) {
            Some(f) => f,
            None => {
                return Err(ErrorCode::Overflow);
            },
        };
        if eta < floor {
            return Err(ErrorCode::InvalidETA);
        }
    }
    if eta != NO_ETA {
        if eta < 0 {
            return Err(ErrorCode::InvalidETA);
        }
        let delay = match eta.checked_sub(now) {
            Some(d) => d,
            None => {
                return Err(ErrorCode::Overflow);
            },
        };
        if delay < 0 {
            return Err(ErrorCode::InvalidETA);
        }
        if delay > MAX_DELAY_SECONDS {
            return Err(ErrorCode::DelayTooHigh);
        }
    }
    let index = smallet.num_transactions;
    let next = match smallet.num_transactions.checked_add(1) {
        Some(n) => n,
        None => {
            return Err(ErrorCode::Overflow);
        },
    };
    let owner_count = smallet.owners.len();
    let mut signers: Vec<bool> = Vec::new();
    let mut i: usize = 0;
    while i < owner_count
        invariant
            i <= owner_count,
            signers@.len() == i,
            forall|j: int| 0 <= j < i ==> signers@[j] == false,
        decreases owner_count - i,
    {
        signers.push(false);
        i += 1;
    }
    signers.set(owner_index, true);
    proof {
        assert(signers@ =~= Seq::new(smallet.owners@.len(), |j: int| false).update(
            owner_position(smallet.owners@, proposer).unwrap(),
            true,
        ));
    }
    smallet.num_transactions = next;
    Ok(
        Transaction {
            smallet: smallet.key,
            index,
            proposer,
            instructions,
            signers,
            owner_set_seqno: smallet.owner_set_seqno,
            eta,
            executor: Pubkey::default(),
            executed_at: NOT_EXECUTED,
        },
    )
}

/// Creates a new transaction without a timelock: the ETA is the
/// [`NO_ETA`] sentinel, so the transaction may execute as soon as the
/// approval threshold is met.
pub fn create_transaction(
    smallet: &mut Smallet,
    proposer: Pubkey,
    instructions: Vec<TXInstruction>,
    now: i64,
) -> (r: Result<Transaction, ErrorCode>)
    requires
        old(smallet).wf(),
    ensures
        final(smallet).wf(),
        match r {
            Ok(tx) => {
                &&& create_transaction_error(*old(smallet), proposer, NO_ETA, now) is None
                &&& final(smallet).num_transactions == old(smallet).num_transactions + 1
                &&& final(smallet).key == old(smallet).key
                &&& final(smallet).base == old(smallet).base
                &&& final(smallet).bump == old(smallet).bump
                &&& final(smallet).threshold == old(smallet).threshold
                &&& final(smallet).minimum_delay == old(smallet).minimum_delay
                &&& final(smallet).grace_period == old(smallet).grace_period
                &&& final(smallet).owner_set_seqno == old(smallet).owner_set_seqno
                &&& final(smallet).owners@ == old(smallet).owners@
                &&& tx.smallet == old(smallet).key
                &&& tx.index == old(smallet).num_transactions
                &&& tx.proposer == proposer
                &&& tx.instructions@ == instructions@
                &&& tx.signers@ == Seq::new(old(smallet).owners@.len(), |i: int| false).update(
                    owner_position(old(smallet).owners@, proposer).unwrap(),
                    true,
                )
                &&& tx.owner_set_seqno == old(smallet).owner_set_seqno
                &&& tx.eta == NO_ETA
                &&& tx.executor == pubkey_zero()
                &&& tx.executed_at == NOT_EXECUTED
                &&& tx.consistent_with(*final(smallet))
            },
            Err(e) => {
                &&& create_transaction_error(*old(smallet), proposer, NO_ETA, now) == Some(e)
                &&& *final(smallet) == *old(smallet)
            },
        },
{
    create_transaction_with_timelock(smallet, proposer, instructions, NO_ETA, now)
}

} // verus!
