//! A multi-owner authorization engine: a group of owners jointly controls a
//! shared wallet identity that can authorize arbitrary external actions,
//! subject to a configurable approval threshold and an optional execution
//! timelock.
//!
//! A [`state::Smallet`] holds the durable configuration of one wallet: the
//! owner list, the approval threshold, the timelock parameters and the
//! owner-set version counter. Owners propose a [`state::Transaction`],
//! approve or unapprove it, and finally execute it once the threshold and the
//! time window are satisfied. Owner-set and threshold changes are themselves
//! gated behind the same pipeline: they demand a [`wallet::WalletAuthority`]
//! capability that only a successful execution can mint.

use vstd::prelude::*;

pub mod events;
pub mod execute;
pub mod invoker;
pub mod laws;
pub mod pda;
pub mod state;
pub mod subaccount;
pub mod transaction;
pub mod wallet;

verus! {

/// Number of seconds in a day.
pub const SECONDS_PER_DAY: i64 = 60 * 60 * 24;

/// Maximum timelock delay, in seconds.
pub const MAX_DELAY_SECONDS: i64 = 365 * SECONDS_PER_DAY;

/// Default number of seconds until a transaction expires.
pub const DEFAULT_GRACE_PERIOD: i64 = 14 * SECONDS_PER_DAY;

/// Sentinel declaring that a transaction has no ETA.
pub const NO_ETA: i64 = -1;

/// Sentinel timestamp of a transaction that has not been executed.
pub const NOT_EXECUTED: i64 = -1;

/// Everything a requested operation can be rejected with. A rejection leaves
/// all state unchanged.
#[derive(Clone, Copy, Debug, PartialEq, Eq, Structural)]
pub enum ErrorCode {
    /// The given owner is not part of this smallet.
    InvalidOwner,
    /// Estimated execution time does not satisfy the delay.
    InvalidETA,
    /// Delay greater than the maximum.
    DelayTooHigh,
    /// Not enough owners signed this transaction.
    NotEnoughSigners,
    /// Transaction is past the grace period.
    TransactionIsStale,
    /// Transaction hasn't surpassed the time lock.
    TransactionNotReady,
    /// The given transaction has already been executed.
    AlreadyExecuted,
    /// Threshold must be less than or equal to the number of owners.
    InvalidThreshold,
    /// Owner set has changed since the creation of the transaction.
    OwnerSetChanged,
    /// Subaccount does not belong to the smallet.
    SubaccountOwnerMismatch,
    /// Two keys that had to agree did not.
    KeyMismatch,
    /// A counter or a time computation overflowed.
    Overflow,
}

} // verus!
