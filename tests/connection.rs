use nostrgraph_pow_service::connection::{
    conn_step, send_failure_reported, ConnAction, ConnEvent, ConnState, SendOutcome,
};

#[test]
fn challenge_opens_the_connection() {
    assert_eq!(
        conn_step(ConnState::AwaitingChallenge, ConnEvent::ChallengeWritten),
        (ConnState::Open, ConnAction::Idle)
    );
    assert_eq!(
        conn_step(ConnState::AwaitingChallenge, ConnEvent::WriteFailed),
        (ConnState::Closed, ConnAction::Disconnect)
    );
}

#[test]
fn nothing_is_written_before_the_challenge() {
    assert_eq!(
        conn_step(ConnState::AwaitingChallenge, ConnEvent::OutboundReady),
        (ConnState::AwaitingChallenge, ConnAction::Idle)
    );
    assert_eq!(
        conn_step(ConnState::AwaitingChallenge, ConnEvent::Frame),
        (ConnState::AwaitingChallenge, ConnAction::Idle)
    );
}

#[test]
fn open_connection_handles_and_writes() {
    assert_eq!(conn_step(ConnState::Open, ConnEvent::Frame), (ConnState::Open, ConnAction::HandleFrame));
    assert_eq!(
        conn_step(ConnState::Open, ConnEvent::OutboundReady),
        (ConnState::Open, ConnAction::WriteFrame)
    );
}

#[test]
fn faults_and_close_end_the_connection() {
    for e in [
        ConnEvent::StreamEnded,
        ConnEvent::TransportError,
        ConnEvent::CloseFrame,
        ConnEvent::HandlerFailed,
        ConnEvent::WriteFailed,
    ] {
        assert_eq!(conn_step(ConnState::Open, e), (ConnState::Closed, ConnAction::Disconnect));
        assert_eq!(conn_step(ConnState::Closed, e), (ConnState::Closed, ConnAction::Idle));
    }
    assert_eq!(conn_step(ConnState::Closed, ConnEvent::Frame), (ConnState::Closed, ConnAction::Idle));
}

#[test]
fn only_a_closed_queue_is_reported() {
    assert!(send_failure_reported(SendOutcome::Closed));
    assert!(!send_failure_reported(SendOutcome::TimedOut));
    assert!(!send_failure_reported(SendOutcome::Queued));
}
