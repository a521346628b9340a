use vstd::prelude::*;

use crate::envelope::ProofEnvelope;
use crate::errors::Error;

verus! {

/// The delivery state of one relay attempt.
///
/// The success path is `Pending -> Sent -> Acknowledged`; the failure path
/// is `Pending -> Sent`-less `Failed` on a transport fault, from which
/// `retry` leads back to `Pending` or on to `Abandoned`. A remote
/// rejection abandons the attempt at once.
#[derive(Debug, PartialEq, Eq, Structural, Clone, Copy)]
pub enum AttemptState {
    /// Ready to be handed to the transport.
    Pending,
    /// Handed to the transport; awaiting remote acknowledgment.
    Sent,
    /// The remote side confirmed receipt. Terminal.
    Acknowledged,
    /// The transport failed before send confirmation; retryable.
    Failed,
    /// Given up: rejected by the remote side or out of retries. Terminal.
    Abandoned,
}

/// The fault recorded on a failed or abandoned attempt.
#[derive(Debug, PartialEq, Eq, Structural, Clone, Copy)]
pub enum RelayFault {
    /// The transport failed before send confirmation, or the caller's
    /// deadline passed with no outcome. Retryable.
    TransportError,
    /// The remote side rejected the envelope, for instance for a duplicate
    /// sequence number or an invalid proof. Never retried: the proof and
    /// the sequence number are fixed, so retrying cannot change the
    /// outcome.
    RemoteRejected,
    /// The maximum attempt count was exceeded.
    RetriesExhausted,
}

/// The outcome the transport collaborator reported for one send.
#[derive(Debug, PartialEq, Eq, Structural, Clone, Copy)]
pub enum SendOutcome {
    /// The send was confirmed.
    Delivered,
    /// The transport failed before send confirmation.
    TransportFailure,
    /// The remote side explicitly rejected the envelope.
    RemoteRejection,
}

/// What the transport reported when asked for one envelope's
/// acknowledgment before a caller-supplied deadline.
#[derive(Debug, PartialEq, Eq, Structural, Clone, Copy)]
pub enum AwaitOutcome {
    /// The remote side confirmed receipt, with its receipt value.
    Acknowledged { receipt: u64 },
    /// No outcome yet, and the deadline has not passed: the attempt stays
    /// sent and the caller may ask again.
    StillPending,
    /// The remote side rejected the envelope, for instance for a duplicate
    /// sequence number or an invalid proof.
    Rejected,
    /// The deadline passed with no outcome. The outcome is unknown, so the
    /// attempt fails with a retryable transport fault: the receiver's
    /// deduplication by sequence number keeps a retry safe even if the
    /// earlier send actually arrived.
    TimedOut,
}

/// One delivery attempt of an envelope. The envelope itself is shared and
/// read-only; the attempt records how its delivery went.
#[derive(Debug, PartialEq, Eq, Clone, Copy)]
pub struct RelayAttempt {
    /// The sequence number of the envelope being delivered.
    pub envelope_sequence: u64,
    /// Which attempt this is, starting at 1.
    pub attempt_number: u64,
    /// The delivery state.
    pub state: AttemptState,
    /// The fault behind a `Failed` or `Abandoned` state.
    pub last_error: Option<RelayFault>,
}

impl RelayAttempt {
    /// Well-formedness: attempts are numbered from 1, a failed attempt
    /// records the transport fault, an abandoned attempt records why, and
    /// live states carry no fault.
    pub open spec fn wf(self) -> bool {
        &&& self.attempt_number >= 1
        &&& match self.state {
            AttemptState::Pending => self.last_error is None,
            AttemptState::Sent => self.last_error is None,
            AttemptState::Acknowledged => self.last_error is None,
            AttemptState::Failed => self.last_error == Some(RelayFault::TransportError),
            AttemptState::Abandoned => self.last_error == Some(RelayFault::RemoteRejected)
                || self.last_error == Some(RelayFault::RetriesExhausted),
        }
    }

    /// Whether the attempt is well-formed, as executable code.
    pub fn is_well_formed(&self) -> (r: bool)
        ensures
            r == self.wf(),
    {
        if self.attempt_number == 0 {
            return false;
        }
        match (self.state, self.last_error) {
            (AttemptState::Pending, None) => true,
            (AttemptState::Sent, None) => true,
            (AttemptState::Acknowledged, None) => true,
            (AttemptState::Failed, Some(RelayFault::TransportError)) => true,
            (AttemptState::Abandoned, Some(RelayFault::RemoteRejected)) => true,
            (AttemptState::Abandoned, Some(RelayFault::RetriesExhausted)) => true,
            _ => false,
        }
    }
}

/// The attempt after recording `outcome` for a pending attempt: delivered
/// means sent and awaiting acknowledgment; a transport failure is
/// retryable; a remote rejection is abandoned at once.
pub open spec fn spec_dispatched(a: RelayAttempt, outcome: SendOutcome) -> RelayAttempt {
    match outcome {
        SendOutcome::Delivered => RelayAttempt {
            envelope_sequence: a.envelope_sequence,
            attempt_number: a.attempt_number,
            state: AttemptState::Sent,
            last_error: None,
        },
        SendOutcome::TransportFailure => RelayAttempt {
            envelope_sequence: a.envelope_sequence,
            attempt_number: a.attempt_number,
            state: AttemptState::Failed,
            last_error: Some(RelayFault::TransportError),
        },
        SendOutcome::RemoteRejection => RelayAttempt {
            envelope_sequence: a.envelope_sequence,
            attempt_number: a.attempt_number,
            state: AttemptState::Abandoned,
            last_error: Some(RelayFault::RemoteRejected),
        },
    }
}

/// The attempt after recording what awaiting acknowledgment returned for a
/// sent attempt: a confirmation acknowledges it, no outcome yet leaves it
/// sent, a remote rejection abandons it at once, and a passed deadline
/// fails it with a retryable transport fault.
pub open spec fn spec_confirmed(a: RelayAttempt, outcome: AwaitOutcome) -> RelayAttempt {
    match outcome {
        AwaitOutcome::Acknowledged { .. } => RelayAttempt {
            envelope_sequence: a.envelope_sequence,
            attempt_number: a.attempt_number,
            state: AttemptState::Acknowledged,
            last_error: None,
        },
        AwaitOutcome::StillPending => a,
        AwaitOutcome::Rejected => RelayAttempt {
            envelope_sequence: a.envelope_sequence,
            attempt_number: a.attempt_number,
            state: AttemptState::Abandoned,
            last_error: Some(RelayFault::RemoteRejected),
        },
        AwaitOutcome::TimedOut => RelayAttempt {
            envelope_sequence: a.envelope_sequence,
            attempt_number: a.attempt_number,
            state: AttemptState::Failed,
            last_error: Some(RelayFault::TransportError),
        },
    }
}

/// Whether `retry` is legal: only a failed attempt whose fault was a
/// transport error may be retried.
pub open spec fn spec_retry_allowed(a: RelayAttempt) -> bool {
    a.state == AttemptState::Failed && a.last_error == Some(RelayFault::TransportError)
}

/// The attempt after a legal retry under the bound `max_attempts`: back to
/// pending with the next attempt number, or abandoned with
/// `RetriesExhausted` once the bound is reached.
pub open spec fn spec_retried(a: RelayAttempt, max_attempts: u64) -> RelayAttempt {
    if a.attempt_number >= max_attempts {
        RelayAttempt {
            envelope_sequence: a.envelope_sequence,
            attempt_number: a.attempt_number,
            state: AttemptState::Abandoned,
            last_error: Some(RelayFault::RetriesExhausted),
        }
    } else {
        RelayAttempt {
            envelope_sequence: a.envelope_sequence,
            attempt_number: (a.attempt_number + 1) as u64,
            state: AttemptState::Pending,
            last_error: None,
        }
    }
}

/// The first attempt for an envelope: pending, numbered 1.
pub fn new_attempt(envelope: &ProofEnvelope) -> (r: RelayAttempt)
    ensures
        r.wf(),
        r.envelope_sequence == envelope.spec_sequence(),
        r.attempt_number == 1,
        r.state == AttemptState::Pending,
        r.last_error is None,
{
    RelayAttempt {
        envelope_sequence: envelope.sequence(),
        attempt_number: 1,
        state: AttemptState::Pending,
        last_error: None,
    }
}

/// Records the transport collaborator's outcome for handing a pending
/// attempt's envelope to the transport. The caller performs the send
/// itself and reports what the transport said. A delivered send moves the
/// attempt to `Sent`; a transport-level failure before send confirmation
/// to `Failed` with `TransportError`; an explicit remote rejection to
/// `Abandoned` with `RemoteRejected`, never to be retried. Dispatching an
/// attempt that is not pending is illegal.
pub fn dispatch(attempt: RelayAttempt, outcome: SendOutcome) -> (r: Result<RelayAttempt, Error>)
    requires
        attempt.wf(),
    ensures
        attempt.state == AttemptState::Pending ==> r == Ok::<RelayAttempt, Error>(
            spec_dispatched(attempt, outcome),
        ),
        attempt.state != AttemptState::Pending ==> r == Err::<RelayAttempt, Error>(
            (Error::IllegalTransition { sequence: attempt.envelope_sequence }),
        ),
        r matches Ok(n) ==> n.wf(),
{
    match attempt.state {
        AttemptState::Pending => Ok(
            match outcome {
                SendOutcome::Delivered => RelayAttempt {
                    state: AttemptState::Sent,
                    last_error: None,
                    ..attempt
                },
                SendOutcome::TransportFailure => RelayAttempt {
                    state: AttemptState::Failed,
                    last_error: Some(RelayFault::TransportError),
                    ..attempt
                },
                SendOutcome::RemoteRejection => RelayAttempt {
                    state: AttemptState::Abandoned,
                    last_error: Some(RelayFault::RemoteRejected),
                    ..attempt
                },
            },
        ),
        _ => Err(Error::IllegalTransition { sequence: attempt.envelope_sequence }),
    }
}

/// Re-queues a failed attempt for the same envelope — same sequence
/// number, so the receiver's deduplication keeps the retry safe even if an
/// earlier send actually arrived. Legal only for a failure with
/// `TransportError`; a retry of anything else, in particular of an
/// abandoned attempt, is illegal and fails. Once `max_attempts` is
/// reached the attempt is abandoned with `RetriesExhausted`.
pub fn retry(attempt: RelayAttempt, max_attempts: u64) -> (r: Result<RelayAttempt, Error>)
    requires
        attempt.wf(),
    ensures
        spec_retry_allowed(attempt) ==> r == Ok::<RelayAttempt, Error>(
            spec_retried(attempt, max_attempts),
        ),
        !spec_retry_allowed(attempt) ==> r == Err::<RelayAttempt, Error>(
            (Error::IllegalTransition { sequence: attempt.envelope_sequence }),
        ),
        r matches Ok(n) ==> n.wf() && n.envelope_sequence == attempt.envelope_sequence,
{
    let allowed = match (attempt.state, attempt.last_error) {
        (AttemptState::Failed, Some(RelayFault::TransportError)) => true,
        _ => false,
    };
    if !allowed {
        return Err(Error::IllegalTransition { sequence: attempt.envelope_sequence });
    }
    if attempt.attempt_number >= max_attempts {
        Ok(RelayAttempt {
            state: AttemptState::Abandoned,
            last_error: Some(RelayFault::RetriesExhausted),
            ..attempt
        })
    } else {
        Ok(RelayAttempt {
            attempt_number: attempt.attempt_number + 1,
            state: AttemptState::Pending,
            last_error: None,
            ..attempt
        })
    }
}

/// Records what awaiting acknowledgment returned for a sent attempt's
/// envelope. The caller performs the wait itself, against its own
/// deadline, and reports the outcome: a confirmation reaches
/// `Acknowledged`; no outcome yet leaves the attempt unchanged; an
/// explicit remote rejection abandons it at once, never to be retried; a
/// passed deadline fails it with the retryable `TransportError` fault,
/// leaving the decision to retry or abandon to the caller. Confirming an
/// attempt that is not sent is illegal.
pub fn confirm(attempt: RelayAttempt, outcome: AwaitOutcome) -> (r: Result<RelayAttempt, Error>)
    requires
        attempt.wf(),
    ensures
        attempt.state == AttemptState::Sent ==> r == Ok::<RelayAttempt, Error>(
            spec_confirmed(attempt, outcome),
        ),
        attempt.state != AttemptState::Sent ==> r == Err::<RelayAttempt, Error>(
            (Error::IllegalTransition { sequence: attempt.envelope_sequence }),
        ),
        r matches Ok(n) ==> n.wf() && n.envelope_sequence == attempt.envelope_sequence
            && n.attempt_number == attempt.attempt_number,
{
    match attempt.state {
        AttemptState::Sent => Ok(
            match outcome {
                AwaitOutcome::Acknowledged { .. } => RelayAttempt {
                    state: AttemptState::Acknowledged,
                    last_error: None,
                    ..attempt
                },
                AwaitOutcome::StillPending => attempt,
                AwaitOutcome::Rejected => RelayAttempt {
                    state: AttemptState::Abandoned,
                    last_error: Some(RelayFault::RemoteRejected),
                    ..attempt
                },
                AwaitOutcome::TimedOut => RelayAttempt {
                    state: AttemptState::Failed,
                    last_error: Some(RelayFault::TransportError),
                    ..attempt
                },
            },
        ),
        _ => Err(Error::IllegalTransition { sequence: attempt.envelope_sequence }),
    }
}

/// Records the remote confirmation the caller received for a sent
/// attempt's envelope; the receipt itself is the caller's evidence and is
/// not stored on the attempt. Acknowledged is terminal: acknowledging an
/// attempt in any other state, or one already acknowledged, is illegal.
pub fn acknowledge(attempt: RelayAttempt, remote_receipt: u64) -> (r: Result<RelayAttempt, Error>)
    requires
        attempt.wf(),
    ensures
        attempt.state == AttemptState::Sent ==> r == Ok::<RelayAttempt, Error>(
            (RelayAttempt {
                envelope_sequence: attempt.envelope_sequence,
                attempt_number: attempt.attempt_number,
                state: AttemptState::Acknowledged,
                last_error: None,
            }),
        ),
        attempt.state != AttemptState::Sent ==> r == Err::<RelayAttempt, Error>(
            (Error::IllegalTransition { sequence: attempt.envelope_sequence }),
        ),
        r matches Ok(n) ==> n.wf(),
{
    confirm(attempt, AwaitOutcome::Acknowledged { receipt: remote_receipt })
}

/// A dispatch that the remote side rejected leaves the attempt abandoned,
/// and an abandoned attempt can never return to `Pending`: a retry of it
/// is not allowed.
pub proof fn lemma_remote_rejection_never_retried(a: RelayAttempt)
    requires
        a.wf(),
        a.state == AttemptState::Pending,
    ensures
        spec_dispatched(a, SendOutcome::RemoteRejection).state == AttemptState::Abandoned,
        !spec_retry_allowed(spec_dispatched(a, SendOutcome::RemoteRejection)),
{
}

/// A rejection that arrives at acknowledgment time abandons the attempt
/// just the same, and an abandoned attempt can never return to `Pending`:
/// a retry of it is not allowed. A passed deadline, by contrast, leaves a
/// failed attempt that may be retried.
pub proof fn lemma_confirm_outcomes(a: RelayAttempt)
    requires
        a.wf(),
        a.state == AttemptState::Sent,
    ensures
        spec_confirmed(a, AwaitOutcome::Rejected).state == AttemptState::Abandoned,
        !spec_retry_allowed(spec_confirmed(a, AwaitOutcome::Rejected)),
        spec_confirmed(a, AwaitOutcome::TimedOut).state == AttemptState::Failed,
        spec_retry_allowed(spec_confirmed(a, AwaitOutcome::TimedOut)),
{
}

} // verus!
