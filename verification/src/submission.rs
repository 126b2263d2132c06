//! The transaction-submission state machine.
//!
//! A submission signs a payload, hands it to the transport, and waits for
//! a caller-chosen acceptance target: mere acknowledgement, inclusion in
//! a block, or finalization. The asynchronous waiting is the driver's
//! job; this module owns every decision. The driver performs the action
//! the machine asks for, feeds the node's answer back as a [`TxEvent`],
//! and the machine moves through its states until it is finished with
//! either an outcome or a rejection.
//!
//! A submission that the node rejects outright and one whose operation
//! ran on the ledger but failed are both terminal rejections the caller
//! must branch on; neither ever surfaces as a successful outcome.

use vstd::prelude::*;

use crate::Balance;
use crate::TxStatus;
use crate::connection::{SignedConnection, TxInfo};
use crate::error::Error;
use crate::primitives::{BlockHash, Hash256, TxHash};

verus! {

/// Optional parameters attached to a submission.
#[derive(Copy, Clone, Debug, PartialEq, Eq, Structural)]
pub struct TxParams {
    /// The tip offered to the block author, on top of the regular fee.
    pub tip: Balance,
}

impl Default for TxParams {
    /// No tip.
    fn default() -> (r: TxParams)
        ensures
            r.tip == 0,
    {
        TxParams { tip: 0 }
    }
}

/// What the node reported back about a submission, fed to
/// [`Submission::step`] by the driver.
#[derive(Copy, Clone, Debug, PartialEq, Eq)]
pub enum TxEvent {
    /// The node acknowledged receipt of the signed payload and assigned
    /// it this transaction hash.
    Accepted {
        /// Hash of the submitted transaction.
        tx_hash: TxHash,
    },
    /// The node rejected the payload outright, or the transport failed
    /// before acknowledgement: the transaction never reached the chain.
    SubmitFailed,
    /// The progress stream reported first inclusion in a block.
    InBlock {
        /// Hash of the including block.
        block_hash: BlockHash,
    },
    /// The progress stream reported the execution outcome of the included
    /// operation.
    Executed {
        /// Whether the ledger recorded the operation as successful.
        success: bool,
    },
    /// The progress stream reported finalized inclusion together with the
    /// execution outcome, in one combined step.
    Finalized {
        /// Hash of the finalized including block.
        block_hash: BlockHash,
        /// Whether the ledger recorded the operation as successful.
        success: bool,
    },
    /// The transport broke while progress was awaited.
    TransportFailed,
}

/// What the driver must await next, returned by [`Submission::step`].
#[derive(Copy, Clone, Debug, PartialEq, Eq, Structural)]
pub enum TxAction {
    /// Await the progress stream's first-inclusion report.
    WaitForInBlock,
    /// Await the execution outcome of the included operation.
    WaitForExecution,
    /// Await the combined finalized-and-executed report.
    WaitForFinalization,
    /// Nothing remains: the submission is finished, inspect its outcome.
    Finished,
}

/// Where a submission stands.
#[derive(Copy, Clone, Debug, PartialEq, Eq)]
pub enum SubmissionState {
    /// Payload and parameters assembled, signature attached; nothing has
    /// been handed to the transport yet.
    Built,
    /// The node acknowledged receipt; the progress stream is live.
    Submitted {
        /// Hash the node assigned to the transaction.
        tx_hash: TxHash,
    },
    /// The transaction was included in a block; its execution outcome is
    /// still awaited.
    Included {
        /// Hash the node assigned to the transaction.
        tx_hash: TxHash,
        /// Hash of the including block.
        block_hash: BlockHash,
    },
    /// The acceptance target was reached; the outcome is available.
    Done {
        /// Block and transaction identifier of the accepted submission.
        info: TxInfo,
    },
    /// Terminal failure: no outcome is returned, only the error.
    Rejected {
        /// Why the submission failed.
        error: Error,
    },
}

/// One submission being driven to its acceptance target.
#[derive(Copy, Clone, Debug, PartialEq, Eq)]
pub struct Submission {
    /// The acceptance target the caller selected.
    pub status: TxStatus,
    /// The parameters attached to the submission.
    pub params: TxParams,
    /// Where the submission stands.
    pub state: SubmissionState,
}

impl Submission {
    /// States reachable while driving a submission: an acknowledged
    /// submission is still waiting, so its target cannot be mere
    /// acknowledgement, and an inclusion whose execution outcome is
    /// separately awaited happens only for the included-in-block target.
    pub open spec fn wf(self) -> bool {
        &&& self.state is Submitted ==> self.status != TxStatus::Submitted
        &&& self.state is Included ==> self.status == TxStatus::InBlock
    }

    /// Whether the submission has reached a terminal state.
    pub open spec fn spec_finished(self) -> bool {
        self.state is Done || self.state is Rejected
    }

    /// Which events the protocol can deliver in the current state: the
    /// acknowledgement verdict while nothing was handed over yet, then
    /// exactly the reports the chosen target waits for. No event is
    /// admissible in a terminal state.
    pub open spec fn spec_accepts(self, event: TxEvent) -> bool {
        match self.state {
            SubmissionState::Built => event is Accepted || event is SubmitFailed,
            SubmissionState::Submitted { .. } => match self.status {
                TxStatus::InBlock => event is InBlock || event is TransportFailed,
                TxStatus::Finalized => event is Finalized || event is TransportFailed,
                TxStatus::Submitted => false,
            },
            SubmissionState::Included { .. } => event is Executed || event is TransportFailed,
            SubmissionState::Done { .. } => false,
            SubmissionState::Rejected { .. } => false,
        }
    }

    /// The transition relation of the machine: from the current state and
    /// a delivered event to the next state and the action the driver must
    /// take.
    pub open spec fn spec_step(self, event: TxEvent) -> (Submission, TxAction) {
        match (self.state, event) {
            (SubmissionState::Built, TxEvent::Accepted { tx_hash }) => match self.status {
                TxStatus::Submitted => (
                    Submission {
                        state: SubmissionState::Done {
                            info: TxInfo { block_hash: Hash256::spec_zero(), tx_hash },
                        },
                        ..self
                    },
                    TxAction::Finished,
                ),
                TxStatus::InBlock => (
                    Submission { state: SubmissionState::Submitted { tx_hash }, ..self },
                    TxAction::WaitForInBlock,
                ),
                TxStatus::Finalized => (
                    Submission { state: SubmissionState::Submitted { tx_hash }, ..self },
                    TxAction::WaitForFinalization,
                ),
            },
            (SubmissionState::Built, _) => (
                Submission {
                    state: SubmissionState::Rejected { error: Error::SubmissionRejected },
                    ..self
                },
                TxAction::Finished,
            ),
            (SubmissionState::Submitted { tx_hash }, TxEvent::InBlock { block_hash }) => (
                Submission { state: SubmissionState::Included { tx_hash, block_hash }, ..self },
                TxAction::WaitForExecution,
            ),
            (
                SubmissionState::Submitted { tx_hash },
                TxEvent::Finalized { block_hash, success },
            ) => if success {
                (
                    Submission {
                        state: SubmissionState::Done { info: TxInfo { block_hash, tx_hash } },
                        ..self
                    },
                    TxAction::Finished,
                )
            } else {
                (
                    Submission {
                        state: SubmissionState::Rejected { error: Error::ExecutionFailed },
                        ..self
                    },
                    TxAction::Finished,
                )
            },
            (SubmissionState::Submitted { .. }, _) => (
                Submission {
                    state: SubmissionState::Rejected { error: Error::TransportLost },
                    ..self
                },
                TxAction::Finished,
            ),
            (SubmissionState::Included { tx_hash, block_hash }, TxEvent::Executed { success }) => {
                if success {
                    (
                        Submission {
                            state: SubmissionState::Done { info: TxInfo { block_hash, tx_hash } },
                            ..self
                        },
                        TxAction::Finished,
                    )
                } else {
                    (
                        Submission {
                            state: SubmissionState::Rejected { error: Error::ExecutionFailed },
                            ..self
                        },
                        TxAction::Finished,
                    )
                }
            },
            (SubmissionState::Included { .. }, _) => (
                Submission {
                    state: SubmissionState::Rejected { error: Error::TransportLost },
                    ..self
                },
                TxAction::Finished,
            ),
            _ => (self, TxAction::Finished),
        }
    }

    /// Begins a submission with the given acceptance target and
    /// parameters.
    pub fn new_with_params(status: TxStatus, params: TxParams) -> (r: Submission)
        ensures
            r == (Submission { status, params, state: SubmissionState::Built }),
            r.wf(),
    {
        Submission { status, params, state: SubmissionState::Built }
    }

    /// Begins a submission with the given acceptance target and default
    /// parameters.
    pub fn new(status: TxStatus) -> (r: Submission)
        ensures
            r == (Submission {
                status,
                params: TxParams { tip: 0 },
                state: SubmissionState::Built,
            }),
            r.wf(),
    {
        Submission::new_with_params(status, TxParams::default())
    }

    /// Whether the submission has reached a terminal state.
    pub fn is_finished(&self) -> (r: bool)
        ensures
            r == self.spec_finished(),
    {
        match self.state {
            SubmissionState::Done { .. } => true,
            SubmissionState::Rejected { .. } => true,
            _ => false,
        }
    }

    /// Delivers the node's next report and moves the machine one step,
    /// returning what the driver must await next.
    /// * `event` - the report the awaited action produced
    pub fn step(&mut self, event: TxEvent) -> (action: TxAction)
        requires
            old(self).wf(),
            old(self).spec_accepts(event),
        ensures
            *final(self) == old(self).spec_step(event).0,
            action == old(self).spec_step(event).1,
            final(self).wf(),
            final(self).status == old(self).status,
            final(self).params == old(self).params,
            action is Finished <==> final(self).spec_finished(),
    {
        let next: (Submission, TxAction) = match (self.state, event) {
            (SubmissionState::Built, TxEvent::Accepted { tx_hash }) => match self.status {
                TxStatus::Submitted => (
                    Submission {
                        state: SubmissionState::Done {
                            info: TxInfo { block_hash: Hash256::zero(), tx_hash },
                        },
                        ..*self
                    },
                    TxAction::Finished,
                ),
                TxStatus::InBlock => (
                    Submission { state: SubmissionState::Submitted { tx_hash }, ..*self },
                    TxAction::WaitForInBlock,
                ),
                TxStatus::Finalized => (
                    Submission { state: SubmissionState::Submitted { tx_hash }, ..*self },
                    TxAction::WaitForFinalization,
                ),
            },
            (SubmissionState::Built, _) => (
                Submission {
                    state: SubmissionState::Rejected { error: Error::SubmissionRejected },
                    ..*self
                },
                TxAction::Finished,
            ),
            (SubmissionState::Submitted { tx_hash }, TxEvent::InBlock { block_hash }) => (
                Submission { state: SubmissionState::Included { tx_hash, block_hash }, ..*self },
                TxAction::WaitForExecution,
            ),
            (
                SubmissionState::Submitted { tx_hash },
                TxEvent::Finalized { block_hash, success },
            ) => if success {
                (
                    Submission {
                        state: SubmissionState::Done { info: TxInfo { block_hash, tx_hash } },
                        ..*self
                    },
                    TxAction::Finished,
                )
            } else {
                (
                    Submission {
                        state: SubmissionState::Rejected { error: Error::ExecutionFailed },
                        ..*self
                    },
                    TxAction::Finished,
                )
            },
            (SubmissionState::Submitted { .. }, _) => (
                Submission {
                    state: SubmissionState::Rejected { error: Error::TransportLost },
                    ..*self
                },
                TxAction::Finished,
            ),
            (SubmissionState::Included { tx_hash, block_hash }, TxEvent::Executed { success }) => {
                if success {
                    (
                        Submission {
                            state: SubmissionState::Done { info: TxInfo { block_hash, tx_hash } },
                            ..*self
                        },
                        TxAction::Finished,
                    )
                } else {
                    (
                        Submission {
                            state: SubmissionState::Rejected { error: Error::ExecutionFailed },
                            ..*self
                        },
                        TxAction::Finished,
                    )
                }
            },
            (SubmissionState::Included { .. }, _) => (
                Submission {
                    state: SubmissionState::Rejected { error: Error::TransportLost },
                    ..*self
                },
                TxAction::Finished,
            ),
            _ => (*self, TxAction::Finished),
        };
        *self = next.0;
        next.1
    }

    /// The outcome of a finished submission: the block and transaction
    /// identifiers when the acceptance target was reached, the error the
    /// caller must branch on otherwise.
    pub fn outcome(&self) -> (r: Result<TxInfo, Error>)
        requires
            self.spec_finished(),
        ensures
            self.state matches SubmissionState::Done { info } ==> r == Ok::<TxInfo, Error>(info),
            self.state matches SubmissionState::Rejected { error } ==> r == Err::<TxInfo, Error>(
                error,
            ),
    {
        match self.state {
            SubmissionState::Done { info } => Ok(info),
            SubmissionState::Rejected { error } => Err(error),
            _ => Err(Error::SubmissionRejected),
        }
    }
}

/// Law: with acceptance target `Submitted`, acknowledgement finishes the
/// submission at once. The outcome carries the acknowledged transaction
/// hash, and its block identifier is left all-zero, because no block has
/// been attributed yet.
pub proof fn lemma_submitted_target_outcome(s: Submission, h: TxHash)
    requires
        s.state is Built,
        s.status == TxStatus::Submitted,
    ensures
        ({
            let (s2, action) = s.spec_step(TxEvent::Accepted { tx_hash: h });
            &&& action == TxAction::Finished
            &&& s2.state matches SubmissionState::Done { info } && info.tx_hash == h
                && info.block_hash.spec_is_zero()
        }),
{
}

/// Law: with a waiting acceptance target, a finished successful
/// submission carries exactly the block identifier the node reported for
/// the inclusion, and the transaction hash from the acknowledgement; in
/// particular the block identifier is not the all-zero default whenever
/// the node reported a real block.
pub proof fn lemma_waiting_target_block_attributed(s: Submission, ev: TxEvent)
    requires
        s.wf(),
        s.spec_accepts(ev),
        ev matches TxEvent::Executed { success } ==> success,
        ev matches TxEvent::Finalized { success, .. } ==> success,
    ensures
        ({
            let (s2, action) = s.spec_step(ev);
            &&& (s2.state is Done && ev is Finalized) ==> s2.state->Done_info.block_hash
                == ev->Finalized_block_hash
            &&& (s2.state is Done && s.state is Included) ==> s2.state->Done_info.block_hash
                == s.state->Included_block_hash
            &&& (s2.state is Done && s.state is Submitted) ==> s2.state->Done_info.tx_hash
                == s.state->Submitted_tx_hash
            &&& (s2.state is Done && ev is Finalized && !ev->Finalized_block_hash.spec_is_zero())
                ==> !s2.state->Done_info.block_hash.spec_is_zero()
            &&& (s2.state is Done && s.state is Included
                && !s.state->Included_block_hash.spec_is_zero())
                ==> !s2.state->Done_info.block_hash.spec_is_zero()
        }),
{
}

/// Law: an operation that was included in a block but failed execution is
/// reported through the same channel as outright rejection — a terminal
/// `Rejected` state whose error the caller branches on — and never as a
/// `Done` outcome.
pub proof fn lemma_execution_failure_rejected(s: Submission, ev: TxEvent)
    requires
        s.wf(),
        s.spec_accepts(ev),
        ev is Executed || ev is Finalized,
        ev is Executed ==> !ev->Executed_success,
        ev is Finalized ==> !ev->Finalized_success,
    ensures
        ({
            let (s2, action) = s.spec_step(ev);
            &&& action == TxAction::Finished
            &&& s2.state matches SubmissionState::Rejected { error } && error
                == Error::ExecutionFailed
            &&& !(s2.state is Done)
        }),
{
}

/// Law: outright rejection at submission is terminal and yields no
/// outcome, through the same error channel as every other failure.
pub proof fn lemma_submit_failure_rejected(s: Submission)
    requires
        s.state is Built,
    ensures
        ({
            let (s2, action) = s.spec_step(TxEvent::SubmitFailed);
            &&& action == TxAction::Finished
            &&& s2.state matches SubmissionState::Rejected { error } && error
                == Error::SubmissionRejected
            &&& !(s2.state is Done)
        }),
{
}

impl SignedConnection {
    /// Begins submitting a signed payload with the given parameters,
    /// waiting for the given acceptance target.
    ///
    /// Submission requires the signed capability: the machine is started
    /// from a signed handle, and the driver signs the payload with this
    /// connection's key pair when it hands it to the transport.
    /// * `status` - the acceptance target to wait for
    /// * `params` - optional tx params, e.g. tip
    pub fn send_tx_with_params(&self, status: TxStatus, params: TxParams) -> (r: Submission)
        ensures
            r == (Submission { status, params, state: SubmissionState::Built }),
            r.wf(),
    {
        Submission::new_with_params(status, params)
    }

    /// Begins submitting a signed payload with default parameters,
    /// waiting for the given acceptance target.
    /// * `status` - the acceptance target to wait for
    pub fn send_tx(&self, status: TxStatus) -> (r: Submission)
        ensures
            r == (Submission {
                status,
                params: TxParams { tip: 0 },
                state: SubmissionState::Built,
            }),
            r.wf(),
    {
        self.send_tx_with_params(status, TxParams::default())
    }
}

} // verus!
