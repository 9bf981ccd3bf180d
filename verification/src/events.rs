//! Event payloads produced for an external event sink. The library only
//! defines their shapes; emitting them, and the transport behind that, is the
//! caller's concern.

use vstd::prelude::*;

use crate::state::{Pubkey, TXInstruction};

verus! {

/// Emitted when a wallet is first created.
#[derive(Clone, Debug)]
pub struct WalletCreateEvent {
    /// The wallet.
    pub smallet: Pubkey,
    /// Owners of the created wallet.
    pub owners: Vec<Pubkey>,
    /// Threshold at the time of creation.
    pub threshold: u64,
    /// Minimum delay at the time of creation.
    pub minimum_delay: i64,
    /// When the event was emitted.
    pub timestamp: i64,
}

/// Emitted when the owners of a wallet are changed.
#[derive(Clone, Debug)]
pub struct WalletSetOwnersEvent {
    /// The wallet.
    pub smallet: Pubkey,
    /// The new owners of the wallet.
    pub owners: Vec<Pubkey>,
    /// When the event was emitted.
    pub timestamp: i64,
}

/// Emitted when the threshold of a wallet is changed.
#[derive(Clone, Debug)]
pub struct WalletChangeThresholdEvent {
    /// The wallet.
    pub smallet: Pubkey,
    /// The new threshold.
    pub threshold: u64,
    /// When the event was emitted.
    pub timestamp: i64,
}

/// Emitted when a transaction is proposed.
#[derive(Clone, Debug)]
pub struct TransactionCreateEvent {
    /// The wallet.
    pub smallet: Pubkey,
    /// The proposed transaction.
    pub transaction: Pubkey,
    /// The owner that proposed the transaction.
    pub proposer: Pubkey,
    /// The instructions of the transaction.
    pub instructions: Vec<TXInstruction>,
    /// The transaction's ETA.
    pub eta: i64,
    /// When the event was emitted.
    pub timestamp: i64,
}

/// Emitted when a transaction is approved.
#[derive(Clone, Debug)]
pub struct TransactionApproveEvent {
    /// The wallet.
    pub smallet: Pubkey,
    /// The transaction.
    pub transaction: Pubkey,
    /// The approving owner.
    pub owner: Pubkey,
    /// When the event was emitted.
    pub timestamp: i64,
}

/// Emitted when an approval is withdrawn from a transaction.
#[derive(Clone, Debug)]
pub struct TransactionUnapproveEvent {
    /// The wallet.
    pub smallet: Pubkey,
    /// The transaction.
    pub transaction: Pubkey,
    /// The owner withdrawing its approval.
    pub owner: Pubkey,
    /// When the event was emitted.
    pub timestamp: i64,
}

/// Emitted when a transaction is executed.
#[derive(Clone, Debug)]
pub struct TransactionExecuteEvent {
    /// The wallet.
    pub smallet: Pubkey,
    /// The executed transaction.
    pub transaction: Pubkey,
    /// The owner that triggered execution.
    pub executor: Pubkey,
    /// When the event was emitted.
    pub timestamp: i64,
}

} // verus!
