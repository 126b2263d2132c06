//! Scenarios for the transaction-submission state machine: each
//! acceptance target driven to its outcome, and every failure path
//! reported through the error channel.

use subxtxt::TxStatus;
use subxtxt::error::Error;
use subxtxt::primitives::Hash256;
use subxtxt::submission::{Submission, SubmissionState, TxAction, TxEvent, TxParams};

fn hash(tag: u8) -> Hash256 {
    let mut bytes = [0u8; 32];
    bytes[0] = tag;
    Hash256::new(bytes)
}

#[test]
fn submitted_target_finishes_on_acknowledgement() {
    let tx = hash(7);
    let mut s = Submission::new(TxStatus::Submitted);
    let action = s.step(TxEvent::Accepted { tx_hash: tx });
    assert_eq!(action, TxAction::Finished);
    assert!(s.is_finished());
    let info = s.outcome().unwrap();
    assert_eq!(info.block_hash, Hash256::zero());
    assert!(info.block_hash.is_zero());
    assert_eq!(info.tx_hash, tx);
    assert!(!info.tx_hash.is_zero());
}

#[test]
fn in_block_target_returns_reported_block() {
    let tx = hash(1);
    let block = hash(2);
    let mut s = Submission::new(TxStatus::InBlock);
    assert_eq!(s.step(TxEvent::Accepted { tx_hash: tx }), TxAction::WaitForInBlock);
    assert_eq!(s.step(TxEvent::InBlock { block_hash: block }), TxAction::WaitForExecution);
    assert_eq!(s.step(TxEvent::Executed { success: true }), TxAction::Finished);
    let info = s.outcome().unwrap();
    assert_eq!(info.block_hash, block);
    assert!(!info.block_hash.is_zero());
    assert_eq!(info.tx_hash, tx);
}

#[test]
fn finalized_target_returns_reported_block() {
    let tx = hash(3);
    let block = hash(4);
    let mut s = Submission::new(TxStatus::Finalized);
    assert_eq!(s.step(TxEvent::Accepted { tx_hash: tx }), TxAction::WaitForFinalization);
    assert_eq!(
        s.step(TxEvent::Finalized { block_hash: block, success: true }),
        TxAction::Finished
    );
    let info = s.outcome().unwrap();
    assert_eq!(info.block_hash, block);
    assert_eq!(info.tx_hash, tx);
}

#[test]
fn outright_rejection_yields_no_outcome() {
    let mut s = Submission::new(TxStatus::InBlock);
    assert_eq!(s.step(TxEvent::SubmitFailed), TxAction::Finished);
    assert!(s.is_finished());
    let err = s.outcome().unwrap_err();
    assert_eq!(err, Error::SubmissionRejected);
    assert!(!err.is_fatal());
}

#[test]
fn execution_failure_uses_the_rejection_channel() {
    let tx = hash(5);
    let block = hash(6);

    let mut s = Submission::new(TxStatus::InBlock);
    s.step(TxEvent::Accepted { tx_hash: tx });
    s.step(TxEvent::InBlock { block_hash: block });
    assert_eq!(s.step(TxEvent::Executed { success: false }), TxAction::Finished);
    assert!(matches!(s.state, SubmissionState::Rejected { .. }));
    let err = s.outcome().unwrap_err();
    assert_eq!(err, Error::ExecutionFailed);
    assert!(!err.is_fatal());

    let mut f = Submission::new(TxStatus::Finalized);
    f.step(TxEvent::Accepted { tx_hash: tx });
    assert_eq!(
        f.step(TxEvent::Finalized { block_hash: block, success: false }),
        TxAction::Finished
    );
    assert_eq!(f.outcome().unwrap_err(), Error::ExecutionFailed);
}

#[test]
fn transport_loss_while_waiting_is_reported() {
    let tx = hash(8);
    let mut s = Submission::new(TxStatus::Finalized);
    s.step(TxEvent::Accepted { tx_hash: tx });
    assert_eq!(s.step(TxEvent::TransportFailed), TxAction::Finished);
    assert_eq!(s.outcome().unwrap_err(), Error::TransportLost);
}

#[test]
fn params_ride_along_unchanged() {
    let mut s = Submission::new_with_params(TxStatus::Submitted, TxParams { tip: 25 });
    assert_eq!(s.params, TxParams { tip: 25 });
    s.step(TxEvent::Accepted { tx_hash: hash(9) });
    assert_eq!(s.params, TxParams { tip: 25 });
    assert_eq!(Submission::new(TxStatus::Submitted).params, TxParams::default());
}

#[test]
fn weight_and_timepoint_are_plain_coordinates() {
    let w = subxtxt::Weight { ref_time: 120_000, proof_size: 64 };
    assert_eq!(w, w.clone());
    assert_ne!(w, subxtxt::Weight { ref_time: 120_000, proof_size: 65 });
    let t = subxtxt::Timepoint { height: 10, index: 2 };
    assert_eq!(t.height, 10);
    assert_eq!(t.index, 2);
    assert_ne!(TxStatus::Submitted, TxStatus::Finalized);
}
