//! The request dispatcher: the state machine that takes one client
//! connection from the handshake to its reply and on to relaying or closing.
//!
//! The caller performs the I/O. It starts a connection in
//! [`Connection::new`], carries out the handshake, and from then on reports
//! what happened as an [`Event`] and carries out the [`Action`] that
//! [`Connection::step`] answers with.

use crate::address::{unspecified_target, Target, TargetAddress};
use crate::protocol::{Command, ReplyCode};
use crate::transport::{request_for, StreamRequest, StreamRequestView};
use vstd::prelude::*;

pub mod acceptor;
pub mod concurrency;
pub mod runs;

verus! {

/// Where a client connection stands.
#[derive(Clone, Debug, PartialEq, Eq)]
pub enum Connection {
    /// The client has yet to propose its authentication methods.
    AwaitingHandshake,
    /// The handshake is done; the client's one request is awaited.
    AwaitingRequest,
    /// A stream to the target has been asked of the tunnel session.
    Connecting(TargetAddress),
    /// The reply with this code is being sent.
    Replying(ReplyCode),
    /// Bytes are copied both ways; each flag says that its direction has
    /// reached the end of its data.
    Relaying { client_done: bool, tunnel_done: bool },
    /// The connection is over. The code is that of the reply that was
    /// issued, if one was.
    Closed(Option<ReplyCode>),
}

/// What the caller reports.
#[derive(Clone, Debug, PartialEq, Eq)]
pub enum Event {
    /// The client offered "no authentication" and it was selected.
    HandshakeCompleted,
    /// The handshake was malformed, or the client did not offer
    /// "no authentication".
    HandshakeFailed,
    /// The client's request was read.
    Request(Command, TargetAddress),
    /// The request was malformed or could not be read.
    RequestFailed,
    /// The tunnel session created the stream.
    StreamOpened,
    /// The tunnel session failed to create the stream, for whatever reason.
    StreamFailed,
    /// The reply was written to the client.
    ReplySent,
    /// The reply could not be written.
    ReplyFailed,
    /// The client has no more data to send.
    ClientFinished,
    /// The tunnel stream has no more data to send.
    TunnelFinished,
    /// One direction of the relay reported an error.
    RelayFailed,
}

/// What the caller has to do next.
#[derive(Clone, Debug, PartialEq, Eq)]
pub enum Action {
    /// Read the client's request.
    ReadRequest,
    /// Ask the tunnel session for a stream.
    CreateStream(StreamRequest),
    /// Send the reply with this code and this bound address.
    SendReply(ReplyCode, TargetAddress),
    /// Copy bytes between the client connection and the tunnel stream.
    StartRelay,
    /// Shut the client connection down and release it; there is no tunnel
    /// stream.
    ShutdownClient,
    /// Shut down both the client connection and the tunnel stream, in both
    /// directions, and release them.
    ShutdownBoth,
    /// Release what the connection holds, without a shutdown.
    Close,
    /// Nothing changes: go on with what is under way.
    Continue,
}

/// The mathematical value of a [`Connection`].
pub ghost enum ConnectionView {
    AwaitingHandshake,
    AwaitingRequest,
    Connecting(Target),
    Replying(ReplyCode),
    Relaying { client_done: bool, tunnel_done: bool },
    Closed(Option<ReplyCode>),
}

/// The mathematical value of an [`Event`].
pub ghost enum EventView {
    HandshakeCompleted,
    HandshakeFailed,
    Request(Command, Target),
    RequestFailed,
    StreamOpened,
    StreamFailed,
    ReplySent,
    ReplyFailed,
    ClientFinished,
    TunnelFinished,
    RelayFailed,
}

/// The mathematical value of an [`Action`].
pub ghost enum ActionView {
    ReadRequest,
    CreateStream(StreamRequestView),
    SendReply(ReplyCode, Target),
    StartRelay,
    ShutdownClient,
    ShutdownBoth,
    Close,
    Continue,
}

impl View for Connection {
    type V = ConnectionView;

    open spec fn view(&self) -> ConnectionView {
        match *self {
            Connection::AwaitingHandshake => ConnectionView::AwaitingHandshake,
            Connection::AwaitingRequest => ConnectionView::AwaitingRequest,
            Connection::Connecting(target) => ConnectionView::Connecting(target@),
            Connection::Replying(code) => ConnectionView::Replying(code),
            Connection::Relaying { client_done, tunnel_done } => ConnectionView::Relaying {
                client_done,
                tunnel_done,
            },
            Connection::Closed(reply) => ConnectionView::Closed(reply),
        }
    }
}

impl View for Event {
    type V = EventView;

    open spec fn view(&self) -> EventView {
        match *self {
            Event::HandshakeCompleted => EventView::HandshakeCompleted,
            Event::HandshakeFailed => EventView::HandshakeFailed,
            Event::Request(command, target) => EventView::Request(command, target@),
            Event::RequestFailed => EventView::RequestFailed,
            Event::StreamOpened => EventView::StreamOpened,
            Event::StreamFailed => EventView::StreamFailed,
            Event::ReplySent => EventView::ReplySent,
            Event::ReplyFailed => EventView::ReplyFailed,
            Event::ClientFinished => EventView::ClientFinished,
            Event::TunnelFinished => EventView::TunnelFinished,
            Event::RelayFailed => EventView::RelayFailed,
        }
    }
}

impl View for Action {
    type V = ActionView;

    open spec fn view(&self) -> ActionView {
        match *self {
            Action::ReadRequest => ActionView::ReadRequest,
            Action::CreateStream(request) => ActionView::CreateStream(request@),
            Action::SendReply(code, address) => ActionView::SendReply(code, address@),
            Action::StartRelay => ActionView::StartRelay,
            Action::ShutdownClient => ActionView::ShutdownClient,
            Action::ShutdownBoth => ActionView::ShutdownBoth,
            Action::Close => ActionView::Close,
            Action::Continue => ActionView::Continue,
        }
    }
}

/// What a request is answered with while it waits for its first event: a
/// CONNECT asks the tunnel session for a stream, the other commands are
/// refused at once.
pub open spec fn on_request(command: Command, target: Target) -> (ConnectionView, ActionView) {
    if command == Command::Connect {
        (ConnectionView::Connecting(target), ActionView::CreateStream(request_for(target)))
    } else {
        (
            ConnectionView::Replying(ReplyCode::CommandNotSupported),
            ActionView::SendReply(ReplyCode::CommandNotSupported, unspecified_target()),
        )
    }
}

/// What follows once a reply has been written: relaying after `Succeeded`,
/// the end of the connection after any other code.
pub open spec fn on_reply_sent(code: ReplyCode) -> (ConnectionView, ActionView) {
    if code == ReplyCode::Succeeded {
        (
            ConnectionView::Relaying { client_done: false, tunnel_done: false },
            ActionView::StartRelay,
        )
    } else {
        (ConnectionView::Closed(Some(code)), ActionView::ShutdownClient)
    }
}

/// What follows when one direction of the relay ends: the relay is over
/// when both have ended.
pub open spec fn on_direction_finished(client_done: bool, tunnel_done: bool) -> (
    ConnectionView,
    ActionView,
) {
    if client_done && tunnel_done {
        (ConnectionView::Closed(Some(ReplyCode::Succeeded)), ActionView::ShutdownBoth)
    } else {
        (ConnectionView::Relaying { client_done, tunnel_done }, ActionView::Continue)
    }
}

/// The dispatcher's transition function. An event that the state does not
/// wait for changes nothing.
pub open spec fn transition(state: ConnectionView, event: EventView) -> (
    ConnectionView,
    ActionView,
) {
    match (state, event) {
        (ConnectionView::AwaitingHandshake, EventView::HandshakeCompleted) => (
            ConnectionView::AwaitingRequest,
            ActionView::ReadRequest,
        ),
        (ConnectionView::AwaitingHandshake, EventView::HandshakeFailed) => (
            ConnectionView::Closed(None),
            ActionView::Close,
        ),
        (ConnectionView::AwaitingRequest, EventView::Request(command, target)) => on_request(
            command,
            target,
        ),
        (ConnectionView::AwaitingRequest, EventView::RequestFailed) => (
            ConnectionView::Closed(None),
            ActionView::Close,
        ),
        (ConnectionView::Connecting(target), EventView::StreamOpened) => (
            ConnectionView::Replying(ReplyCode::Succeeded),
            ActionView::SendReply(ReplyCode::Succeeded, target),
        ),
        (ConnectionView::Connecting(_), EventView::StreamFailed) => (
            ConnectionView::Replying(ReplyCode::HostUnreachable),
            ActionView::SendReply(ReplyCode::HostUnreachable, unspecified_target()),
        ),
        (ConnectionView::Replying(code), EventView::ReplySent) => on_reply_sent(code),
        (ConnectionView::Replying(code), EventView::ReplyFailed) => (
            ConnectionView::Closed(Some(code)),
            ActionView::Close,
        ),
        (
            ConnectionView::Relaying { client_done: _, tunnel_done },
            EventView::ClientFinished,
        ) => on_direction_finished(true, tunnel_done),
        (
            ConnectionView::Relaying { client_done, tunnel_done: _ },
            EventView::TunnelFinished,
        ) => on_direction_finished(client_done, true),
        (ConnectionView::Relaying { .. }, EventView::RelayFailed) => (
            ConnectionView::Closed(Some(ReplyCode::Succeeded)),
            ActionView::ShutdownBoth,
        ),
        (state, _) => (state, ActionView::Continue),
    }
}

impl Connection {
    /// A connection that has just been accepted.
    pub fn new() -> (connection: Connection)
        ensures
            connection@ == ConnectionView::AwaitingHandshake,
    {
        Connection::AwaitingHandshake
    }

    /// The code of the reply that has been issued for this connection, if
    /// one has.
    pub fn reply(&self) -> (reply: Option<ReplyCode>)
        ensures
            reply == reply_issued(self@),
    {
        match self {
            Connection::Replying(code) => Some(*code),
            Connection::Relaying { .. } => Some(ReplyCode::Succeeded),
            Connection::Closed(reply) => *reply,
            _ => None,
        }
    }

    /// Whether the connection is over.
    pub fn is_closed(&self) -> (closed: bool)
        ensures
            closed == (self@ is Closed),
    {
        match self {
            Connection::Closed(_) => true,
            _ => false,
        }
    }

    /// Takes the connection one event further and says what to do next.
    pub fn step(self, event: Event) -> (next: (Connection, Action))
        ensures
            (next.0@, next.1@) == transition(self@, event@),
    {
        match self {
            Connection::AwaitingHandshake => match event {
                Event::HandshakeCompleted => (Connection::AwaitingRequest, Action::ReadRequest),
                Event::HandshakeFailed => (Connection::Closed(None), Action::Close),
                _ => (Connection::AwaitingHandshake, Action::Continue),
            },
            Connection::AwaitingRequest => match event {
                Event::Request(command, target) => {
                    if command.is_supported() {
                        let request = StreamRequest::for_target(&target);
                        (Connection::Connecting(target), Action::CreateStream(request))
                    } else {
                        (
                            Connection::Replying(ReplyCode::CommandNotSupported),
                            Action::SendReply(
                                ReplyCode::CommandNotSupported,
                                TargetAddress::unspecified(),
                            ),
                        )
                    }
                },
                Event::RequestFailed => (Connection::Closed(None), Action::Close),
                _ => (Connection::AwaitingRequest, Action::Continue),
            },
            Connection::Connecting(target) => match event {
                Event::StreamOpened => (
                    Connection::Replying(ReplyCode::Succeeded),
                    Action::SendReply(ReplyCode::Succeeded, target),
                ),
                Event::StreamFailed => (
                    Connection::Replying(ReplyCode::HostUnreachable),
                    Action::SendReply(ReplyCode::HostUnreachable, TargetAddress::unspecified()),
                ),
                _ => (Connection::Connecting(target), Action::Continue),
            },
            Connection::Replying(code) => match event {
                Event::ReplySent => match code {
                    ReplyCode::Succeeded => (
                        Connection::Relaying { client_done: false, tunnel_done: false },
                        Action::StartRelay,
                    ),
                    _ => (Connection::Closed(Some(code)), Action::ShutdownClient),
                },
                Event::ReplyFailed => (Connection::Closed(Some(code)), Action::Close),
                _ => (Connection::Replying(code), Action::Continue),
            },
            Connection::Relaying { client_done, tunnel_done } => match event {
                Event::ClientFinished => Connection::direction_finished(true, tunnel_done),
                Event::TunnelFinished => Connection::direction_finished(client_done, true),
                Event::RelayFailed => (
                    Connection::Closed(Some(ReplyCode::Succeeded)),
                    Action::ShutdownBoth,
                ),
                _ => (Connection::Relaying { client_done, tunnel_done }, Action::Continue),
            },
            Connection::Closed(reply) => (Connection::Closed(reply), Action::Continue),
        }
    }

    fn direction_finished(client_done: bool, tunnel_done: bool) -> (next: (Connection, Action))
        ensures
            (next.0@, next.1@) == on_direction_finished(client_done, tunnel_done),
    {
        if client_done && tunnel_done {
            (Connection::Closed(Some(ReplyCode::Succeeded)), Action::ShutdownBoth)
        } else {
            (Connection::Relaying { client_done, tunnel_done }, Action::Continue)
        }
    }
}

/// The code of the reply that has been issued by the time a connection is
/// in this state, if one has.
pub open spec fn reply_issued(state: ConnectionView) -> Option<ReplyCode> {
    match state {
        ConnectionView::Replying(code) => Some(code),
        ConnectionView::Relaying { .. } => Some(ReplyCode::Succeeded),
        ConnectionView::Closed(reply) => reply,
        _ => None,
    }
}

} // verus!
