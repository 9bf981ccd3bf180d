//! The wallet registry: creation of a wallet and the two governance
//! mutations, owner-set replacement and threshold change.
//!
//! Nobody may mutate a wallet directly: both mutations demand a
//! [`WalletAuthority`] capability, and the only way to obtain one is a
//! successful [`crate::execute::execute_transaction`]. Governance changes
//! therefore flow through the same proposal, approval and execution pipeline
//! as any other wallet action.

use vstd::prelude::*;

use crate::state::{distinct_keys, Pubkey, Smallet};
use crate::{ErrorCode, DEFAULT_GRACE_PERIOD, MAX_DELAY_SECONDS};

verus! {

/// Capability to act as the wallet itself. A value of this type is minted
/// only by [`crate::execute::execute_transaction`] on a successful execution;
/// it cannot be forged by ordinary callers.
#[derive(Clone, Copy, Debug)]
pub struct WalletAuthority {
    pub(crate) key: Pubkey,
}

impl WalletAuthority {
    /// The wallet this authority speaks for.
    pub closed spec fn spec_key(self) -> Pubkey {
        self.key
    }

    /// The wallet this authority speaks for.
    pub fn key(&self) -> (r: Pubkey)
        ensures
            r == self.spec_key(),
    {
        self.key
    }

    /// Mints the authority of the wallet at `key`. Reserved to the
    /// execution gate: a successful execution is the only event that may
    /// produce a value of this type.
    pub(crate) fn mint(key: Pubkey) -> (r: WalletAuthority)
        ensures
            r.spec_key() == key,
    {
        WalletAuthority { key }
    }
}

/// Why a wallet creation request is rejected, if it is: the minimum delay
/// must lie in `[0, MAX_DELAY_SECONDS)`, the threshold cannot exceed the
/// number of owners, and the owners must be distinct.
pub open spec fn create_wallet_error(
    owners: Seq<Pubkey>,
    threshold: u64,
    minimum_delay: i64,
) -> Option<ErrorCode> {
    if minimum_delay < 0 || minimum_delay >= MAX_DELAY_SECONDS {
        Some(ErrorCode::DelayTooHigh)
    } else if threshold > owners.len() {
        Some(ErrorCode::InvalidThreshold)
    } else if !distinct_keys(owners) {
        Some(ErrorCode::InvalidOwner)
    } else {
        None
    }
}

/// Why an owner-set replacement is rejected, if it is: the authority must
/// speak for this wallet, the new owners must be distinct, and the owner-set
/// sequence number must not overflow.
pub open spec fn set_owners_error(
    smallet: Smallet,
    authority_key: Pubkey,
    owners: Seq<Pubkey>,
) -> Option<ErrorCode> {
    if authority_key != smallet.key {
        Some(ErrorCode::KeyMismatch)
    } else if !distinct_keys(owners) {
        Some(ErrorCode::InvalidOwner)
    } else if smallet.owner_set_seqno == u32::MAX {
        Some(ErrorCode::Overflow)
    } else {
        None
    }
}

/// Why a threshold change is rejected, if it is: the authority must speak
/// for this wallet and the new threshold cannot exceed the number of owners.
pub open spec fn change_threshold_error(
    smallet: Smallet,
    authority_key: Pubkey,
    threshold: u64,
) -> Option<ErrorCode> {
    if authority_key != smallet.key {
        Some(ErrorCode::KeyMismatch)
    } else if threshold > smallet.owners@.len() {
        Some(ErrorCode::InvalidThreshold)
    } else {
        None
    }
}

/// Whether all keys of `keys` are pairwise distinct.
fn keys_distinct(keys: &Vec<Pubkey>) -> (r: bool)
    ensures
        r == distinct_keys(keys@),
{
    let n = keys.len();
    let mut i: usize = 0;
    while i < n
        invariant
            i <= n,
            n == keys@.len(),
            forall|p: int, q: int| 0 <= p < q < n && p < i ==> keys@[p] != keys@[q],
        decreases n - i,
    {
        let mut j: usize = i + 1;
        while j < n
            invariant
                i < j <= n,
                i < n,
                n == keys@.len(),
                forall|q: int| i < q < j ==> keys@[i as int] != keys@[q],
            decreases n - j,
        {
            if keys[i] == keys[j] {
                assert(!distinct_keys(keys@));
                return false;
            }
            j += 1;
        }
        i += 1;
    }
    true
}

/// Initializes a new wallet record with a set of owners and a threshold.
///
/// `key` is the address of the wallet record, `base` and `bump` the seed
/// material it was derived from; deriving them is the caller's concern. The
/// grace period starts at [`DEFAULT_GRACE_PERIOD`], the owner-set sequence
/// number and the transaction counter at zero.
pub fn create_smallet(
    key: Pubkey,
    base: Pubkey,
    bump: u8,
    owners: Vec<Pubkey>,
    threshold: u64,
    minimum_delay: i64,
) -> (r: Result<Smallet, ErrorCode>)
    ensures
        match r {
            Ok(s) => {
                &&& create_wallet_error(owners@, threshold, minimum_delay) is None
                &&& s.key == key
                &&& s.base == base
                &&& s.bump == bump
                &&& s.threshold == threshold
                &&& s.minimum_delay == minimum_delay
                &&& s.grace_period == DEFAULT_GRACE_PERIOD
                &&& s.owner_set_seqno == 0
                &&& s.num_transactions == 0
                &&& s.owners@ == owners@
                &&& s.wf()
            },
            Err(e) => create_wallet_error(owners@, threshold, minimum_delay) == Some(e),
        },
{
    if minimum_delay < 0 || minimum_delay >= MAX_DELAY_SECONDS {
        return Err(ErrorCode::DelayTooHigh);
    }
    if threshold > owners.len() as u64 {
        return Err(ErrorCode::InvalidThreshold);
    }
    if !keys_distinct(&owners) {
        return Err(ErrorCode::InvalidOwner);
    }
    Ok(
        Smallet {
            key,
            base,
            bump,
            threshold,
            minimum_delay,
            grace_period: DEFAULT_GRACE_PERIOD,
            owner_set_seqno: 0,
            num_transactions: 0,
            owners,
        },
    )
}

/// Replaces the owner set of the wallet, on behalf of the wallet itself.
///
/// If the new owner list is shorter than the current threshold, the
/// threshold is clamped down to the new length; it is never raised. The
/// owner-set sequence number is incremented by exactly 1, which permanently
/// invalidates every transaction proposed against the previous owner set.
pub fn set_owners(smallet: &mut Smallet, authority: &WalletAuthority, owners: Vec<Pubkey>) -> (r:
    Result<(), ErrorCode>)
    requires
        old(smallet).wf(),
    ensures
        final(smallet).wf(),
        match r {
            Ok(()) => {
                &&& set_owners_error(*old(smallet), authority.spec_key(), owners@) is None
                &&& final(smallet).owners@ == owners@
                &&& final(smallet).threshold == if old(smallet).threshold <= owners@.len() {
                    old(smallet).threshold as int
                } else {
                    owners@.len() as int
                }
                &&& final(smallet).owner_set_seqno == old(smallet).owner_set_seqno + 1
                &&& final(smallet).key == old(smallet).key
                &&& final(smallet).base == old(smallet).base
                &&& final(smallet).bump == old(smallet).bump
                &&& final(smallet).minimum_delay == old(smallet).minimum_delay
                &&& final(smallet).grace_period == old(smallet).grace_period
                &&& final(smallet).num_transactions == old(smallet).num_transactions
            },
            Err(e) => {
                &&& set_owners_error(*old(smallet), authority.spec_key(), owners@) == Some(e)
                &&& *final(smallet) == *old(smallet)
            },
        },
{
    if !(authority.key == smallet.key) {
        return Err(ErrorCode::KeyMismatch);
    }
    if !keys_distinct(&owners) {
        return Err(ErrorCode::InvalidOwner);
    }
    if smallet.owner_set_seqno == u32::MAX {
        return Err(ErrorCode::Overflow);
    }
    if (owners.len() as u64) < smallet.threshold {
        smallet.threshold = owners.len() as u64;
    }
    smallet.owners = owners;
    smallet.owner_set_seqno = smallet.owner_set_seqno + 1;
    Ok(())
}

/// Changes the execution threshold of the wallet, on behalf of the wallet
/// itself. The owner-set sequence number is not touched, so transactions in
/// flight stay valid.
pub fn change_threshold(smallet: &mut Smallet, authority: &WalletAuthority, threshold: u64) -> (r:
    Result<(), ErrorCode>)
    requires
        old(smallet).wf(),
    ensures
        final(smallet).wf(),
        match r {
            Ok(()) => {
                &&& change_threshold_error(*old(smallet), authority.spec_key(), threshold) is None
                &&& final(smallet).threshold == threshold
                &&& final(smallet).owners@ == old(smallet).owners@
                &&& final(smallet).owner_set_seqno == old(smallet).owner_set_seqno
                &&& final(smallet).key == old(smallet).key
                &&& final(smallet).base == old(smallet).base
                &&& final(smallet).bump == old(smallet).bump
                &&& final(smallet).minimum_delay == old(smallet).minimum_delay
                &&& final(smallet).grace_period == old(smallet).grace_period
                &&& final(smallet).num_transactions == old(smallet).num_transactions
            },
            Err(e) => {
                &&& change_threshold_error(*old(smallet), authority.spec_key(), threshold) == Some(
                    e,
                )
                &&& *final(smallet) == *old(smallet)
            },
        },
{
    if !(authority.key == smallet.key) {
        return Err(ErrorCode::KeyMismatch);
    }
    if threshold > smallet.owners.len() as u64 {
        return Err(ErrorCode::InvalidThreshold);
    }
    smallet.threshold = threshold;
    Ok(())
}

} // verus!
