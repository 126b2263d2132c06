//! The connection-bootstrap procedure: opening a transport session with
//! bounded retry.
//!
//! Opening the socket is the driver's job; this machine owns the retry
//! policy. The driver makes one connection attempt per step and reports
//! whether it succeeded; the machine answers with what to do next: use
//! the live session, wait the fixed backoff and try again, or give up for
//! good. Exhausting the retry budget is fatal — no usable-looking but
//! broken session is ever produced. Once a session is live no retry
//! budget applies any more: later failures belong to the individual
//! operations.

use vstd::prelude::*;

use crate::error::Error;

verus! {

/// How many retries a bootstrap attempts when the caller does not say.
pub const DEFAULT_RETRIES: u32 = 10;

/// The fixed backoff, in seconds, between two connection attempts.
pub const RETRY_WAIT_SECS: u64 = 1;

/// Where a bootstrap stands.
#[derive(Copy, Clone, Debug, PartialEq, Eq, Structural)]
pub enum BootstrapPhase {
    /// Attempts are still being made.
    Trying,
    /// An attempt succeeded: the session is live.
    Connected,
    /// The retry budget is exhausted: the bootstrap failed fatally.
    Aborted,
}

/// What the driver must do after reporting an attempt's outcome.
#[derive(Copy, Clone, Debug, PartialEq, Eq, Structural)]
pub enum BootstrapStep {
    /// The attempt succeeded: wrap the open transport in a session.
    Connected,
    /// Suspend for the given backoff, then attempt again. The wait must
    /// be a non-blocking suspension so concurrent work goes on.
    RetryAfterWait {
        /// Seconds to wait before the next attempt.
        wait_secs: u64,
    },
    /// The budget is exhausted: abort the bootstrap fatally.
    Aborted,
}

/// The retry state of one bootstrap.
#[derive(Copy, Clone, Debug, PartialEq, Eq, Structural)]
pub struct Bootstrap {
    /// How many failed attempts may still be retried.
    pub retries_left: u32,
    /// How many attempts have been made so far.
    pub attempts_made: u64,
    /// Where the bootstrap stands.
    pub phase: BootstrapPhase,
}

impl Bootstrap {
    /// The attempts made and the retries left stay within the budget the
    /// bootstrap began with: one attempt more than the budget once the
    /// machine has stopped trying.
    pub open spec fn wf(self) -> bool {
        &&& self.phase is Trying ==> self.attempts_made + self.retries_left <= u32::MAX
        &&& self.attempts_made + self.retries_left <= u32::MAX + 1
    }

    /// The transition of the retry policy: a success connects; a failure
    /// consumes a retry and waits the fixed backoff, or aborts once the
    /// budget is gone.
    pub open spec fn spec_on_attempt(self, succeeded: bool) -> (Bootstrap, BootstrapStep) {
        if succeeded {
            (
                Bootstrap { attempts_made: (self.attempts_made + 1) as u64, phase: BootstrapPhase::Connected, ..self },
                BootstrapStep::Connected,
            )
        } else if self.retries_left == 0 {
            (
                Bootstrap { attempts_made: (self.attempts_made + 1) as u64, phase: BootstrapPhase::Aborted, ..self },
                BootstrapStep::Aborted,
            )
        } else {
            (
                Bootstrap {
                    attempts_made: (self.attempts_made + 1) as u64,
                    retries_left: (self.retries_left - 1) as u32,
                    ..self
                },
                BootstrapStep::RetryAfterWait { wait_secs: RETRY_WAIT_SECS as u64 },
            )
        }
    }

    /// Begins a bootstrap that will retry a failed attempt `retries`
    /// times.
    pub fn new(retries: u32) -> (r: Bootstrap)
        ensures
            r == (Bootstrap {
                retries_left: retries,
                attempts_made: 0,
                phase: BootstrapPhase::Trying,
            }),
            r.wf(),
    {
        Bootstrap { retries_left: retries, attempts_made: 0, phase: BootstrapPhase::Trying }
    }

    /// Reports the outcome of one connection attempt and answers what
    /// the driver must do next.
    /// * `succeeded` - whether the attempt opened a live connection
    pub fn on_attempt(&mut self, succeeded: bool) -> (step: BootstrapStep)
        requires
            old(self).wf(),
            old(self).phase is Trying,
        ensures
            *final(self) == old(self).spec_on_attempt(succeeded).0,
            step == old(self).spec_on_attempt(succeeded).1,
            final(self).wf(),
            final(self).attempts_made == old(self).attempts_made + 1,
            succeeded ==> step == BootstrapStep::Connected && final(self).phase is Connected,
            !succeeded && old(self).retries_left == 0 ==> step == BootstrapStep::Aborted
                && final(self).phase is Aborted,
            !succeeded && old(self).retries_left > 0 ==> step == (BootstrapStep::RetryAfterWait {
                wait_secs: RETRY_WAIT_SECS as u64,
            }) && final(self).phase is Trying,
    {
        self.attempts_made = self.attempts_made + 1;
        if succeeded {
            self.phase = BootstrapPhase::Connected;
            BootstrapStep::Connected
        } else if self.retries_left == 0 {
            self.phase = BootstrapPhase::Aborted;
            BootstrapStep::Aborted
        } else {
            self.retries_left = self.retries_left - 1;
            BootstrapStep::RetryAfterWait { wait_secs: RETRY_WAIT_SECS }
        }
    }

    /// The fatal error of a bootstrap, once it has given up: exhausting
    /// the retry budget is a configuration mistake, never retried
    /// silently.
    pub fn error(&self) -> (r: Option<Error>)
        ensures
            r is Some <==> self.phase is Aborted,
            r matches Some(e) ==> e == Error::RetriesExhausted && e.spec_is_fatal(),
    {
        match self.phase {
            BootstrapPhase::Aborted => Some(Error::RetriesExhausted),
            _ => None,
        }
    }
}

/// Where a bootstrap ends up when every attempt fails: the state after
/// feeding failures until the machine leaves its trying phase.
pub open spec fn spec_fail_run(b: Bootstrap) -> Bootstrap
    decreases b.retries_left, (if b.phase is Trying { 1int } else { 0int }),
{
    if !(b.phase is Trying) {
        b
    } else {
        spec_fail_run(b.spec_on_attempt(false).0)
    }
}

/// Law: against an unreachable address a bootstrap with a budget of N
/// retries makes exactly N+1 connection attempts — each failure before
/// the last answered with the fixed backoff — and then aborts fatally.
pub proof fn lemma_retry_exhaustion(b: Bootstrap)
    requires
        b.wf(),
        b.phase is Trying,
    ensures
        spec_fail_run(b).phase is Aborted,
        spec_fail_run(b).attempts_made == b.attempts_made + b.retries_left + 1,
    decreases b.retries_left,
{
    let b1 = b.spec_on_attempt(false).0;
    if b.retries_left > 0 {
        lemma_retry_exhaustion(b1);
    } else {
        assert(spec_fail_run(b) == spec_fail_run(b1));
        assert(spec_fail_run(b1) == b1);
    }
}

} // verus!
