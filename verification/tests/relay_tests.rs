use chain_coordinator::address::{resolve, Address};
use chain_coordinator::envelope::{ProofAttacher, ProofEnvelope, SequenceAllocator};
use chain_coordinator::errors::Error;
use chain_coordinator::relay::{acknowledge, confirm, dispatch, new_attempt, retry, AttemptState,
    AwaitOutcome, RelayFault, SendOutcome};

fn sender() -> Address {
    resolve(&"0".repeat(66)).expect("canonical text must resolve")
}

fn envelope() -> ProofEnvelope {
    let attacher = ProofAttacher::new(1024);
    let mut allocator = SequenceAllocator::new(sender(), 7);
    attacher.build_envelope(7, vec![1, 2], vec![9], &mut allocator, 1).unwrap()
}

#[test]
fn success_path_reaches_acknowledged() {
    let env = envelope();
    let attempt = new_attempt(&env);
    assert_eq!(attempt.state, AttemptState::Pending);
    assert_eq!(attempt.attempt_number, 1);
    assert_eq!(attempt.envelope_sequence, env.sequence());
    let sent = dispatch(attempt, SendOutcome::Delivered).unwrap();
    assert_eq!(sent.state, AttemptState::Sent);
    assert_eq!(sent.last_error, None);
    let done = acknowledge(sent, 1234).unwrap();
    assert_eq!(done.state, AttemptState::Acknowledged);
    assert_eq!(done.last_error, None);
}

#[test]
fn acknowledged_is_terminal() {
    let attempt = new_attempt(&envelope());
    let sent = dispatch(attempt, SendOutcome::Delivered).unwrap();
    let done = acknowledge(sent, 1).unwrap();
    assert_eq!(acknowledge(done, 2), Err(Error::IllegalTransition { sequence: 0 }));
    assert_eq!(dispatch(done, SendOutcome::Delivered), Err(Error::IllegalTransition { sequence: 0 }));
    assert_eq!(retry(done, 5), Err(Error::IllegalTransition { sequence: 0 }));
}

#[test]
fn remote_rejection_abandons_and_is_never_retried() {
    // A duplicate sequence number already acknowledged by the remote side
    // comes back as an explicit rejection.
    let attempt = new_attempt(&envelope());
    let rejected = dispatch(attempt, SendOutcome::RemoteRejection).unwrap();
    assert_eq!(rejected.state, AttemptState::Abandoned);
    assert_eq!(rejected.last_error, Some(RelayFault::RemoteRejected));
    // Retry on an abandoned attempt is illegal: it never returns to Pending.
    assert_eq!(retry(rejected, 5), Err(Error::IllegalTransition { sequence: 0 }));
}

#[test]
fn transport_failure_is_retryable() {
    let attempt = new_attempt(&envelope());
    let failed = dispatch(attempt, SendOutcome::TransportFailure).unwrap();
    assert_eq!(failed.state, AttemptState::Failed);
    assert_eq!(failed.last_error, Some(RelayFault::TransportError));
    let again = retry(failed, 5).unwrap();
    assert_eq!(again.state, AttemptState::Pending);
    assert_eq!(again.attempt_number, 2);
    assert_eq!(again.last_error, None);
    assert_eq!(again.envelope_sequence, 0);
}

#[test]
fn retries_are_bounded() {
    let max_attempts = 3;
    let mut attempt = new_attempt(&envelope());
    attempt = dispatch(attempt, SendOutcome::TransportFailure).unwrap();
    attempt = retry(attempt, max_attempts).unwrap();
    attempt = dispatch(attempt, SendOutcome::TransportFailure).unwrap();
    attempt = retry(attempt, max_attempts).unwrap();
    assert_eq!(attempt.attempt_number, 3);
    attempt = dispatch(attempt, SendOutcome::TransportFailure).unwrap();
    let abandoned = retry(attempt, max_attempts).unwrap();
    assert_eq!(abandoned.state, AttemptState::Abandoned);
    assert_eq!(abandoned.last_error, Some(RelayFault::RetriesExhausted));
    assert_eq!(retry(abandoned, max_attempts), Err(Error::IllegalTransition { sequence: 0 }));
}

#[test]
fn confirmation_receipt_acknowledges_sent_attempt() {
    let attempt = new_attempt(&envelope());
    let sent = dispatch(attempt, SendOutcome::Delivered).unwrap();
    let done = confirm(sent, AwaitOutcome::Acknowledged { receipt: 77 }).unwrap();
    assert_eq!(done.state, AttemptState::Acknowledged);
    assert_eq!(done.last_error, None);
    assert_eq!(done.attempt_number, sent.attempt_number);
}

#[test]
fn no_outcome_yet_leaves_attempt_sent() {
    let attempt = new_attempt(&envelope());
    let sent = dispatch(attempt, SendOutcome::Delivered).unwrap();
    let still = confirm(sent, AwaitOutcome::StillPending).unwrap();
    assert_eq!(still, sent);
}

#[test]
fn rejection_at_acknowledgment_abandons_and_is_never_retried() {
    let attempt = new_attempt(&envelope());
    let sent = dispatch(attempt, SendOutcome::Delivered).unwrap();
    let rejected = confirm(sent, AwaitOutcome::Rejected).unwrap();
    assert_eq!(rejected.state, AttemptState::Abandoned);
    assert_eq!(rejected.last_error, Some(RelayFault::RemoteRejected));
    assert_eq!(retry(rejected, 5), Err(Error::IllegalTransition { sequence: 0 }));
}

#[test]
fn passed_deadline_fails_sent_attempt_and_allows_retry() {
    let attempt = new_attempt(&envelope());
    let sent = dispatch(attempt, SendOutcome::Delivered).unwrap();
    let failed = confirm(sent, AwaitOutcome::TimedOut).unwrap();
    assert_eq!(failed.state, AttemptState::Failed);
    assert_eq!(failed.last_error, Some(RelayFault::TransportError));
    // The same envelope may be re-dispatched: the receiver deduplicates by
    // sequence number even if the earlier send actually arrived.
    let again = retry(failed, 5).unwrap();
    assert_eq!(again.state, AttemptState::Pending);
    assert_eq!(again.attempt_number, 2);
    assert_eq!(again.envelope_sequence, 0);
}

#[test]
fn confirm_requires_sent() {
    let attempt = new_attempt(&envelope());
    assert_eq!(
        confirm(attempt, AwaitOutcome::TimedOut),
        Err(Error::IllegalTransition { sequence: 0 })
    );
    let failed = dispatch(attempt, SendOutcome::TransportFailure).unwrap();
    assert_eq!(
        confirm(failed, AwaitOutcome::Acknowledged { receipt: 1 }),
        Err(Error::IllegalTransition { sequence: 0 })
    );
}

#[test]
fn dispatch_requires_pending() {
    let attempt = new_attempt(&envelope());
    let sent = dispatch(attempt, SendOutcome::Delivered).unwrap();
    assert_eq!(
        dispatch(sent, SendOutcome::Delivered),
        Err(Error::IllegalTransition { sequence: 0 })
    );
}

#[test]
fn acknowledge_requires_sent() {
    let attempt = new_attempt(&envelope());
    assert_eq!(acknowledge(attempt, 1), Err(Error::IllegalTransition { sequence: 0 }));
    let failed = dispatch(attempt, SendOutcome::TransportFailure).unwrap();
    assert_eq!(acknowledge(failed, 1), Err(Error::IllegalTransition { sequence: 0 }));
}
