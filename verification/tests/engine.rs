//! End-to-end scenarios of the authorization engine.

use smallet::execute::{execute_transaction, validate_execution};
use smallet::state::{Pubkey, Smallet, Transaction};
use smallet::transaction::{approve, create_transaction, create_transaction_with_timelock, unapprove};
use smallet::wallet::{change_threshold, create_smallet, set_owners, WalletAuthority};
use smallet::{ErrorCode, DEFAULT_GRACE_PERIOD, MAX_DELAY_SECONDS, NOT_EXECUTED, NO_ETA};

fn key(n: u64) -> Pubkey {
    Pubkey { w0: n, w1: 0, w2: 0, w3: 0 }
}

fn wallet(owners: Vec<Pubkey>, threshold: u64, minimum_delay: i64) -> Smallet {
    create_smallet(key(1000), key(1001), 255, owners, threshold, minimum_delay).unwrap()
}

/// Runs a whole empty governance transaction so that the wallet hands out its
/// own authority: proposed and approved by every owner, then executed.
fn authority_for(smallet: &mut Smallet, now: i64) -> WalletAuthority {
    let owners = smallet.owners.clone();
    let proposer = owners[0];
    let mut tx = create_transaction(smallet, proposer, Vec::new(), now).unwrap();
    for owner in owners.iter().skip(1) {
        approve(smallet, &mut tx, *owner).unwrap();
    }
    execute_transaction(smallet, &mut tx, proposer, now).unwrap()
}

#[test]
fn scenario_a_propose_approve_execute() {
    let (a, b, c) = (key(1), key(2), key(3));
    let mut s = wallet(vec![a, b, c], 2, 0);
    assert_eq!(s.grace_period, DEFAULT_GRACE_PERIOD);
    assert_eq!(s.owner_set_seqno, 0);
    assert_eq!(s.num_transactions, 0);

    let mut tx = create_transaction(&mut s, a, Vec::new(), 1_000).unwrap();
    assert_eq!(s.num_transactions, 1);
    assert_eq!(tx.index, 0);
    assert_eq!(tx.eta, NO_ETA);
    assert_eq!(tx.executed_at, NOT_EXECUTED);
    assert_eq!(tx.executor, Pubkey::default());
    assert_eq!(tx.signers, vec![true, false, false]);

    approve(&s, &mut tx, b).unwrap();
    assert_eq!(tx.signers, vec![true, true, false]);
    assert_eq!(tx.num_signers(), 2);

    validate_execution(&s, &tx, c, 2_000).unwrap();
    let auth = execute_transaction(&s, &mut tx, c, 2_000).unwrap();
    assert_eq!(auth.key(), s.key);
    assert_eq!(tx.executed_at, 2_000);
    assert_eq!(tx.executor, c);

    let again = execute_transaction(&s, &mut tx, c, 3_000);
    assert_eq!(again.unwrap_err(), ErrorCode::AlreadyExecuted);
    assert_eq!(approve(&s, &mut tx, c).unwrap_err(), ErrorCode::AlreadyExecuted);
    assert_eq!(unapprove(&s, &mut tx, b).unwrap_err(), ErrorCode::AlreadyExecuted);
}

#[test]
fn scenario_b_minimum_delay_rejects_near_eta() {
    let a = key(1);
    let mut s = wallet(vec![a], 1, 86_400);
    let now = 50_000;
    let r = create_transaction_with_timelock(&mut s, a, Vec::new(), now + 86_399, now);
    assert_eq!(r.unwrap_err(), ErrorCode::InvalidETA);
    assert_eq!(s.num_transactions, 0);
    let ok = create_transaction_with_timelock(&mut s, a, Vec::new(), now + 86_400, now);
    assert!(ok.is_ok());
}

#[test]
fn scenario_c_stale_after_grace_period() {
    let (a, b) = (key(1), key(2));
    let mut s = wallet(vec![a, b], 2, 0);
    let eta = 100_000;
    let mut tx = create_transaction_with_timelock(&mut s, a, Vec::new(), eta, 10_000).unwrap();
    approve(&s, &mut tx, b).unwrap();
    let late = eta + DEFAULT_GRACE_PERIOD + 1;
    assert_eq!(
        validate_execution(&s, &tx, a, late).unwrap_err(),
        ErrorCode::TransactionIsStale
    );
    assert_eq!(
        execute_transaction(&s, &mut tx, a, late).unwrap_err(),
        ErrorCode::TransactionIsStale
    );
    // At the very edge of the grace window it still executes.
    assert!(validate_execution(&s, &tx, a, eta + DEFAULT_GRACE_PERIOD).is_ok());
}

#[test]
fn scenario_d_owner_set_change_permanently_invalidates() {
    let (a, b, c, d) = (key(1), key(2), key(3), key(4));
    let mut s = wallet(vec![a, b, c], 2, 0);

    let mut tx = create_transaction(&mut s, a, Vec::new(), 1_000).unwrap();
    approve(&s, &mut tx, b).unwrap();

    // A previously approved governance transaction executes and replaces the
    // owner set.
    let mut gov = create_transaction(&mut s, a, Vec::new(), 1_100).unwrap();
    approve(&s, &mut gov, c).unwrap();
    let auth = execute_transaction(&s, &mut gov, a, 1_200).unwrap();
    set_owners(&mut s, &auth, vec![a, b, d]).unwrap();
    assert_eq!(s.owner_set_seqno, 1);

    // The first transaction's snapshot no longer matches: everything on it
    // fails, even though its signer count meets the threshold.
    assert_eq!(tx.num_signers(), 2);
    assert_eq!(approve(&s, &mut tx, a).unwrap_err(), ErrorCode::OwnerSetChanged);
    assert_eq!(unapprove(&s, &mut tx, b).unwrap_err(), ErrorCode::OwnerSetChanged);
    assert_eq!(
        validate_execution(&s, &tx, a, 2_000).unwrap_err(),
        ErrorCode::OwnerSetChanged
    );
    assert_eq!(
        execute_transaction(&s, &mut tx, a, 2_000).unwrap_err(),
        ErrorCode::OwnerSetChanged
    );
}

#[test]
fn unapprove_then_approve_restores_bitmap() {
    let (a, b, c) = (key(1), key(2), key(3));
    let mut s = wallet(vec![a, b, c], 2, 0);
    let mut tx = create_transaction(&mut s, b, Vec::new(), 1_000).unwrap();
    let before = tx.signers.clone();
    unapprove(&s, &mut tx, b).unwrap();
    assert_eq!(tx.signers, vec![false, false, false]);
    approve(&s, &mut tx, b).unwrap();
    assert_eq!(tx.signers, before);
}

#[test]
fn approvals_are_idempotent_per_owner() {
    let (a, b) = (key(1), key(2));
    let mut s = wallet(vec![a, b], 2, 0);
    let mut tx = create_transaction(&mut s, a, Vec::new(), 1_000).unwrap();
    approve(&s, &mut tx, a).unwrap();
    assert_eq!(tx.signers, vec![true, false]);
    unapprove(&s, &mut tx, b).unwrap();
    assert_eq!(tx.signers, vec![true, false]);
}

#[test]
fn set_owners_bumps_seqno_and_clamps_threshold() {
    let (a, b, c) = (key(1), key(2), key(3));
    let mut s = wallet(vec![a, b, c], 3, 0);
    let auth = authority_for(&mut s, 500);
    set_owners(&mut s, &auth, vec![a, b]).unwrap();
    assert_eq!(s.owner_set_seqno, 1);
    assert_eq!(s.threshold, 2);
    assert_eq!(s.owners, vec![a, b]);
    set_owners(&mut s, &auth, vec![a, b, c]).unwrap();
    assert_eq!(s.owner_set_seqno, 2);
    // Never raised back.
    assert_eq!(s.threshold, 2);
}

#[test]
fn change_threshold_leaves_seqno_untouched() {
    let (a, b, c) = (key(1), key(2), key(3));
    let mut s = wallet(vec![a, b, c], 1, 0);
    let auth = authority_for(&mut s, 500);
    change_threshold(&mut s, &auth, 3).unwrap();
    assert_eq!(s.threshold, 3);
    assert_eq!(s.owner_set_seqno, 0);
    assert_eq!(
        change_threshold(&mut s, &auth, 4).unwrap_err(),
        ErrorCode::InvalidThreshold
    );
    assert_eq!(s.threshold, 3);
}

#[test]
fn create_smallet_rejects_bad_inputs() {
    let (a, b) = (key(1), key(2));
    assert_eq!(
        create_smallet(key(9), a, 0, vec![a, b], 3, 0).unwrap_err(),
        ErrorCode::InvalidThreshold
    );
    assert_eq!(
        create_smallet(key(9), a, 0, vec![a, b, a], 2, 0).unwrap_err(),
        ErrorCode::InvalidOwner
    );
    assert_eq!(
        create_smallet(key(9), a, 0, vec![a, b], 1, -1).unwrap_err(),
        ErrorCode::DelayTooHigh
    );
    assert_eq!(
        create_smallet(key(9), a, 0, vec![a, b], 1, MAX_DELAY_SECONDS).unwrap_err(),
        ErrorCode::DelayTooHigh
    );
    assert!(create_smallet(key(9), a, 0, vec![a, b], 1, MAX_DELAY_SECONDS - 1).is_ok());
}

#[test]
fn proposal_rejections() {
    let (a, b) = (key(1), key(2));
    let mut s = wallet(vec![a], 1, 0);
    assert_eq!(
        create_transaction(&mut s, b, Vec::new(), 1_000).unwrap_err(),
        ErrorCode::InvalidOwner
    );
    // A real ETA may not lie in the past ...
    assert_eq!(
        create_transaction_with_timelock(&mut s, a, Vec::new(), 900, 1_000).unwrap_err(),
        ErrorCode::InvalidETA
    );
    // ... may not be negative ...
    assert_eq!(
        create_transaction_with_timelock(&mut s, a, Vec::new(), -5, 1_000).unwrap_err(),
        ErrorCode::InvalidETA
    );
    // ... and may not be more than a year out.
    assert_eq!(
        create_transaction_with_timelock(&mut s, a, Vec::new(), 1_000 + MAX_DELAY_SECONDS + 1, 1_000)
            .unwrap_err(),
        ErrorCode::DelayTooHigh
    );
    assert_eq!(s.num_transactions, 0);
}

#[test]
fn execution_rejections() {
    let (a, b, c) = (key(1), key(2), key(3));
    let mut s = wallet(vec![a, b], 2, 0);
    let mut tx = create_transaction_with_timelock(&mut s, a, Vec::new(), 5_000, 1_000).unwrap();
    // Timelock not elapsed yet.
    approve(&s, &mut tx, b).unwrap();
    assert_eq!(
        validate_execution(&s, &tx, a, 4_999).unwrap_err(),
        ErrorCode::TransactionNotReady
    );
    // Not enough signers.
    unapprove(&s, &mut tx, b).unwrap();
    assert_eq!(
        validate_execution(&s, &tx, a, 5_000).unwrap_err(),
        ErrorCode::NotEnoughSigners
    );
    // A non-owner cannot trigger execution even with enough approvals.
    approve(&s, &mut tx, b).unwrap();
    assert_eq!(
        validate_execution(&s, &tx, c, 5_000).unwrap_err(),
        ErrorCode::InvalidOwner
    );
    assert!(validate_execution(&s, &tx, a, 5_000).is_ok());
}

#[test]
fn transaction_of_another_wallet_is_rejected() {
    let (a, b) = (key(1), key(2));
    let mut s1 = create_smallet(key(100), a, 0, vec![a, b], 1, 0).unwrap();
    let s2 = create_smallet(key(200), a, 0, vec![a, b], 1, 0).unwrap();
    let mut tx = create_transaction(&mut s1, a, Vec::new(), 1_000).unwrap();
    assert_eq!(approve(&s2, &mut tx, b).unwrap_err(), ErrorCode::KeyMismatch);
    assert_eq!(
        validate_execution(&s2, &tx, a, 2_000).unwrap_err(),
        ErrorCode::KeyMismatch
    );
}

#[test]
fn counter_and_time_overflows_are_rejected() {
    let a = key(1);
    // A wallet whose transaction counter is exhausted.
    let mut s = wallet(vec![a], 1, 0);
    s.num_transactions = u64::MAX;
    assert_eq!(
        create_transaction(&mut s, a, Vec::new(), 1_000).unwrap_err(),
        ErrorCode::Overflow
    );

    // A wallet whose owner-set sequence number is exhausted.
    let mut s = wallet(vec![a], 1, 0);
    s.owner_set_seqno = u32::MAX;
    let auth = authority_for(&mut s, 500);
    assert_eq!(set_owners(&mut s, &auth, vec![a]).unwrap_err(), ErrorCode::Overflow);

    // A transaction whose ETA plus the grace period does not fit.
    let mut s = wallet(vec![a], 1, 0);
    let tx = Transaction {
        smallet: s.key,
        index: 0,
        proposer: a,
        instructions: Vec::new(),
        signers: vec![true],
        owner_set_seqno: 0,
        eta: i64::MAX - 1_000,
        executor: Pubkey::default(),
        executed_at: NOT_EXECUTED,
    };
    s.num_transactions = 1;
    assert_eq!(
        validate_execution(&s, &tx, a, i64::MAX - 500).unwrap_err(),
        ErrorCode::Overflow
    );

    // A proposal whose minimum-delay floor does not fit.
    let mut s = wallet(vec![a], 1, 86_400);
    assert_eq!(
        create_transaction_with_timelock(&mut s, a, Vec::new(), 1_000, i64::MAX - 100).unwrap_err(),
        ErrorCode::Overflow
    );
}

#[test]
fn set_owners_demands_matching_authority_and_distinct_owners() {
    let (a, b) = (key(1), key(2));
    let mut s1 = create_smallet(key(100), a, 0, vec![a], 1, 0).unwrap();
    let mut s2 = create_smallet(key(200), a, 0, vec![a], 1, 0).unwrap();
    let auth1 = authority_for(&mut s1, 500);
    assert_eq!(
        set_owners(&mut s2, &auth1, vec![a, b]).unwrap_err(),
        ErrorCode::KeyMismatch
    );
    assert_eq!(
        change_threshold(&mut s2, &auth1, 1).unwrap_err(),
        ErrorCode::KeyMismatch
    );
    assert_eq!(
        set_owners(&mut s1, &auth1, vec![a, b, a]).unwrap_err(),
        ErrorCode::InvalidOwner
    );
    assert_eq!(s1.owners, vec![a]);
}

#[test]
fn no_eta_transaction_executes_any_time() {
    let a = key(1);
    let mut s = wallet(vec![a], 1, 0);
    let mut tx = create_transaction(&mut s, a, Vec::new(), 1_000).unwrap();
    assert!(validate_execution(&s, &tx, a, 0).is_ok());
    let auth = execute_transaction(&s, &mut tx, a, 123_456).unwrap();
    assert_eq!(tx.executed_at, 123_456);
    assert_eq!(auth.key(), s.key);
}

#[test]
fn timelocked_flow_respects_floor_and_window() {
    let (a, b) = (key(1), key(2));
    let mut s = wallet(vec![a, b], 2, 86_400);
    let now = 1_000_000;
    let eta = now + 86_400;
    let mut tx = create_transaction_with_timelock(&mut s, a, Vec::new(), eta, now).unwrap();
    approve(&s, &mut tx, b).unwrap();
    assert_eq!(
        validate_execution(&s, &tx, b, eta - 1).unwrap_err(),
        ErrorCode::TransactionNotReady
    );
    let auth = execute_transaction(&s, &mut tx, b, eta).unwrap();
    assert_eq!(auth.key(), s.key);
    assert_eq!(tx.executed_at, eta);
    assert_eq!(tx.executor, b);
}

#[test]
fn zero_threshold_needs_no_approvals() {
    let (a, b) = (key(1), key(2));
    let mut s = wallet(vec![a, b], 0, 0);
    let mut tx = create_transaction(&mut s, a, Vec::new(), 1_000).unwrap();
    unapprove(&s, &mut tx, a).unwrap();
    assert_eq!(tx.num_signers(), 0);
    assert!(validate_execution(&s, &tx, b, 2_000).is_ok());
}

#[test]
fn wallet_without_owners_accepts_no_proposals() {
    let mut s = wallet(Vec::new(), 0, 0);
    assert_eq!(
        create_transaction(&mut s, key(1), Vec::new(), 1_000).unwrap_err(),
        ErrorCode::InvalidOwner
    );
}
