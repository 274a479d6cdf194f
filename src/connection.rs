use vstd::prelude::*;

verus! {

/// Where a connection stands.
#[derive(PartialEq, Eq, Structural, Debug, Clone, Copy)]
pub enum ConnState {
    /// Upgraded; the auth challenge has not been written yet.
    AwaitingChallenge,
    /// The challenge went out; frames flow both ways.
    Open,
    /// Torn down; nothing more is read or written.
    Closed,
}

/// What happened on a connection.
#[derive(PartialEq, Eq, Structural, Debug, Clone, Copy)]
pub enum ConnEvent {
    /// The auth challenge frame was written.
    ChallengeWritten,
    /// A write to the transport failed.
    WriteFailed,
    /// The inbound stream ended.
    StreamEnded,
    /// Reading the inbound stream failed.
    TransportError,
    /// The peer sent a close frame.
    CloseFrame,
    /// The peer sent any other frame.
    Frame,
    /// The command handler failed beyond recovery.
    HandlerFailed,
    /// A queued outbound frame is ready to be written.
    OutboundReady,
}

/// What the connection's driver does next.
#[derive(PartialEq, Eq, Structural, Debug, Clone, Copy)]
pub enum ConnAction {
    /// Nothing.
    Idle,
    /// Hand the frame to the command handler.
    HandleFrame,
    /// Write the queued frame to the transport.
    WriteFrame,
    /// Tear the connection down.
    Disconnect,
}

pub open spec fn conn_step_spec(s: ConnState, e: ConnEvent) -> (ConnState, ConnAction) {
    match s {
        ConnState::Closed => (ConnState::Closed, ConnAction::Idle),
        ConnState::AwaitingChallenge => match e {
            ConnEvent::ChallengeWritten => (ConnState::Open, ConnAction::Idle),
            ConnEvent::Frame => (ConnState::AwaitingChallenge, ConnAction::Idle),
            ConnEvent::OutboundReady => (ConnState::AwaitingChallenge, ConnAction::Idle),
            _ => (ConnState::Closed, ConnAction::Disconnect),
        },
        ConnState::Open => match e {
            ConnEvent::Frame => (ConnState::Open, ConnAction::HandleFrame),
            ConnEvent::OutboundReady => (ConnState::Open, ConnAction::WriteFrame),
            ConnEvent::ChallengeWritten => (ConnState::Open, ConnAction::Idle),
            _ => (ConnState::Closed, ConnAction::Disconnect),
        },
    }
}

/// One step of a connection: a closed stream, a transport fault, a close frame, a
/// failed write or a failed handler ends it; other frames go to the handler and
/// queued frames to the transport, but only once the challenge has gone out.
pub fn conn_step(s: ConnState, e: ConnEvent) -> (r: (ConnState, ConnAction))
    ensures
        r == conn_step_spec(s, e),
        s == ConnState::Closed ==> r == (ConnState::Closed, ConnAction::Idle),
        r.1 == ConnAction::WriteFrame || r.1 == ConnAction::HandleFrame ==> s == ConnState::Open,
        r.1 == ConnAction::Disconnect <==> (r.0 == ConnState::Closed && s != ConnState::Closed),
{
    match s {
        ConnState::Closed => (ConnState::Closed, ConnAction::Idle),
        ConnState::AwaitingChallenge => match e {
            ConnEvent::ChallengeWritten => (ConnState::Open, ConnAction::Idle),
            ConnEvent::Frame => (ConnState::AwaitingChallenge, ConnAction::Idle),
            ConnEvent::OutboundReady => (ConnState::AwaitingChallenge, ConnAction::Idle),
            _ => (ConnState::Closed, ConnAction::Disconnect),
        },
        ConnState::Open => match e {
            ConnEvent::Frame => (ConnState::Open, ConnAction::HandleFrame),
            ConnEvent::OutboundReady => (ConnState::Open, ConnAction::WriteFrame),
            ConnEvent::ChallengeWritten => (ConnState::Open, ConnAction::Idle),
            _ => (ConnState::Closed, ConnAction::Disconnect),
        },
    }
}

/// How an attempt to queue an outbound frame ended.
#[derive(PartialEq, Eq, Structural, Debug, Clone, Copy)]
pub enum SendOutcome {
    Queued,
    /// The queue stayed full for the whole timeout; the frame is dropped.
    TimedOut,
    /// The queue's consumer is gone.
    Closed,
}

/// Whether a queueing outcome is worth reporting: a slow consumer is not a fault,
/// a closed queue means the connection is already going down.
pub fn send_failure_reported(o: SendOutcome) -> (r: bool)
    ensures
        r <==> o == SendOutcome::Closed,
{
    match o {
        SendOutcome::Closed => true,
        _ => false,
    }
}

} // verus!
