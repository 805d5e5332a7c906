//! The life of one connection to a server, as a state machine: the
//! caller performs the input and output, and asks here what follows.
use vstd::prelude::*;

verus! {

/// Where a connection stands.
#[derive(Clone, Copy, Debug, PartialEq, Eq, Structural)]
pub enum ConnectionState {
    /// The server waits for a peer.
    Listening,
    /// A peer connected; no worker serves it yet.
    Accepted,
    /// A worker waits for the peer's next request.
    ReadingRequest,
    /// A request was decoded and runs against the datastore.
    Dispatching,
    /// The result is being sent to the peer.
    WritingResponse,
    /// The connection is over.
    Closed,
}

/// What happened on a connection.
#[derive(Clone, Copy, Debug, PartialEq, Eq, Structural)]
pub enum ConnectionEvent {
    /// A peer connected.
    Connected,
    /// A worker took the connection.
    WorkerReady,
    /// A request arrived and was decoded.
    RequestDecoded,
    /// A request arrived and could not be decoded.
    RequestMalformed,
    /// The datastore returned, with a value or with a failure.
    OperationFinished,
    /// The response was sent.
    ResponseWritten,
    /// The peer closed the connection, or the transport failed.
    PeerClosed,
}

/// What the caller does next.
#[derive(Clone, Copy, Debug, PartialEq, Eq, Structural)]
pub enum ConnectionAction {
    /// Hand the connection to a worker.
    AssignWorker,
    /// Read and decode a request.
    ReadRequest,
    /// Run the decoded request against the datastore.
    Dispatch,
    /// Encode and send what the datastore returned.
    WriteResponse,
    /// Send a protocol error, then close the connection.
    RejectAndClose,
    /// Close the connection.
    Close,
    /// Nothing: the event does not belong to this state.
    Ignore,
}

/// The state and the action that follow an event. A closed connection
/// stays closed; an event that does not belong to the state changes
/// nothing.
pub open spec fn transition(s: ConnectionState, e: ConnectionEvent) -> (
    ConnectionState,
    ConnectionAction,
) {
    match (s, e) {
        (ConnectionState::Closed, _) => (ConnectionState::Closed, ConnectionAction::Ignore),
        (ConnectionState::Listening, ConnectionEvent::Connected) => (
            ConnectionState::Accepted,
            ConnectionAction::AssignWorker,
        ),
        (ConnectionState::Listening, _) => (ConnectionState::Listening, ConnectionAction::Ignore),
        (_, ConnectionEvent::PeerClosed) => (ConnectionState::Closed, ConnectionAction::Close),
        (ConnectionState::Accepted, ConnectionEvent::WorkerReady) => (
            ConnectionState::ReadingRequest,
            ConnectionAction::ReadRequest,
        ),
        (ConnectionState::ReadingRequest, ConnectionEvent::RequestDecoded) => (
            ConnectionState::Dispatching,
            ConnectionAction::Dispatch,
        ),
        (ConnectionState::ReadingRequest, ConnectionEvent::RequestMalformed) => (
            ConnectionState::Closed,
            ConnectionAction::RejectAndClose,
        ),
        (ConnectionState::Dispatching, ConnectionEvent::OperationFinished) => (
            ConnectionState::WritingResponse,
            ConnectionAction::WriteResponse,
        ),
        (ConnectionState::WritingResponse, ConnectionEvent::ResponseWritten) => (
            ConnectionState::ReadingRequest,
            ConnectionAction::ReadRequest,
        ),
        (s, _) => (s, ConnectionAction::Ignore),
    }
}

/// Whether a connection may pass from `from` to `to` in one step.
pub open spec fn may_follow(from: ConnectionState, to: ConnectionState) -> bool {
    match from {
        ConnectionState::Listening => to == ConnectionState::Accepted,
        ConnectionState::Accepted => to == ConnectionState::ReadingRequest || to
            == ConnectionState::Closed,
        ConnectionState::ReadingRequest => to == ConnectionState::Dispatching || to
            == ConnectionState::Closed,
        ConnectionState::Dispatching => to == ConnectionState::WritingResponse || to
            == ConnectionState::Closed,
        ConnectionState::WritingResponse => to == ConnectionState::ReadingRequest || to
            == ConnectionState::Closed,
        ConnectionState::Closed => false,
    }
}

/// The state and the action that follow an event.
pub fn next(s: ConnectionState, e: ConnectionEvent) -> (res: (ConnectionState, ConnectionAction))
    ensures
        res == transition(s, e),
{
    match s {
        ConnectionState::Closed => (ConnectionState::Closed, ConnectionAction::Ignore),
        ConnectionState::Listening => match e {
            ConnectionEvent::Connected => (ConnectionState::Accepted, ConnectionAction::AssignWorker),
            _ => (ConnectionState::Listening, ConnectionAction::Ignore),
        },
        ConnectionState::Accepted => match e {
            ConnectionEvent::PeerClosed => (ConnectionState::Closed, ConnectionAction::Close),
            ConnectionEvent::WorkerReady => (
                ConnectionState::ReadingRequest,
                ConnectionAction::ReadRequest,
            ),
            _ => (s, ConnectionAction::Ignore),
        },
        ConnectionState::ReadingRequest => match e {
            ConnectionEvent::PeerClosed => (ConnectionState::Closed, ConnectionAction::Close),
            ConnectionEvent::RequestDecoded => (
                ConnectionState::Dispatching,
                ConnectionAction::Dispatch,
            ),
            ConnectionEvent::RequestMalformed => (
                ConnectionState::Closed,
                ConnectionAction::RejectAndClose,
            ),
            _ => (s, ConnectionAction::Ignore),
        },
        ConnectionState::Dispatching => match e {
            ConnectionEvent::PeerClosed => (ConnectionState::Closed, ConnectionAction::Close),
            ConnectionEvent::OperationFinished => (
                ConnectionState::WritingResponse,
                ConnectionAction::WriteResponse,
            ),
            _ => (s, ConnectionAction::Ignore),
        },
        ConnectionState::WritingResponse => match e {
            ConnectionEvent::PeerClosed => (ConnectionState::Closed, ConnectionAction::Close),
            ConnectionEvent::ResponseWritten => (
                ConnectionState::ReadingRequest,
                ConnectionAction::ReadRequest,
            ),
            _ => (s, ConnectionAction::Ignore),
        },
    }
}

/// Every step either leaves the state where it is, with nothing to do,
/// or moves it along one arrow of the connection's life.
pub proof fn law_steps_follow_the_arrows(s: ConnectionState, e: ConnectionEvent)
    ensures
        transition(s, e).0 == s ==> transition(s, e).1 == ConnectionAction::Ignore,
        transition(s, e).0 != s ==> may_follow(s, transition(s, e).0),
        (transition(s, e).1 == ConnectionAction::RejectAndClose) <==> (s
            == ConnectionState::ReadingRequest && e == ConnectionEvent::RequestMalformed),
{
}

} // verus!
