use crate::protocol::UserSession;
use crate::server::WebSocketChatroomMessageServer;
use vstd::prelude::*;

verus! {

/// How long the client waits before it tries to connect again, in seconds.
pub const RETRY_DELAY_SECS: u64 = 10;

/// Where the client's link to the relay stands.
#[derive(Clone, Copy, Debug, PartialEq, Eq, Structural)]
pub enum LinkState {
    /// No socket: the client is trying to connect.
    Connecting,
    /// The socket is up and the credential has been sent.
    Connected,
}

/// What happened on the client's link.
pub enum LinkEvent {
    /// An attempt to connect failed.
    ConnectFailed,
    /// An attempt to connect gave a socket.
    ConnectSucceeded,
    /// The application has a message to send.
    Outgoing(WebSocketChatroomMessageServer),
    /// The application has dropped its end: there will be no more messages to
    /// send.
    OutgoingClosed,
    /// A frame came over the socket.
    Incoming(Vec<u8>),
    /// Reading from the socket failed.
    IncomingFailed,
}

/// What the client's link does next.
pub enum LinkAction {
    /// Wait so many seconds, then connect again.
    RetryAfter(u64),
    /// Send the credential, before anything else.
    SendCredential(UserSession),
    /// Send the message.
    Send(WebSocketChatroomMessageServer),
    /// Hand the frame to the application.
    Forward(Vec<u8>),
    /// Drop the socket and connect again.
    Reconnect,
    /// Note the failure and go on.
    Report,
    /// Nothing.
    Ignore,
}

/// The state of the link after `event`.
pub open spec fn link_state_after(state: LinkState, event: LinkEvent) -> LinkState {
    match (state, event) {
        (LinkState::Connecting, LinkEvent::ConnectSucceeded) => LinkState::Connected,
        (LinkState::Connected, LinkEvent::OutgoingClosed) => LinkState::Connecting,
        _ => state,
    }
}

/// What the link does on `event`, for a client whose credential is `session`.
pub open spec fn link_reaction(state: LinkState, session: UserSession, event: LinkEvent) -> LinkAction {
    match state {
        LinkState::Connecting => match event {
            LinkEvent::ConnectFailed => LinkAction::RetryAfter(RETRY_DELAY_SECS),
            LinkEvent::ConnectSucceeded => LinkAction::SendCredential(session),
            _ => LinkAction::Ignore,
        },
        LinkState::Connected => match event {
            LinkEvent::Outgoing(message) => LinkAction::Send(message),
            LinkEvent::OutgoingClosed => LinkAction::Reconnect,
            LinkEvent::Incoming(frame) => LinkAction::Forward(frame),
            LinkEvent::IncomingFailed => LinkAction::Report,
            _ => LinkAction::Ignore,
        },
    }
}

/// One step of the client's link. The first thing that goes over a new socket
/// is the credential; a failed attempt to connect is tried again after a
/// pause; a failed read is noted and the link stays up.
pub fn on_link_event(state: LinkState, session: UserSession, event: LinkEvent) -> (step: (
    LinkState,
    LinkAction,
))
    ensures
        step.0 == link_state_after(state, event),
        step.1 == link_reaction(state, session, event),
{
    match state {
        LinkState::Connecting => match event {
            LinkEvent::ConnectFailed => (
                LinkState::Connecting,
                LinkAction::RetryAfter(RETRY_DELAY_SECS),
            ),
            LinkEvent::ConnectSucceeded => (
                LinkState::Connected,
                LinkAction::SendCredential(session),
            ),
            _ => (LinkState::Connecting, LinkAction::Ignore),
        },
        LinkState::Connected => match event {
            LinkEvent::Outgoing(message) => (LinkState::Connected, LinkAction::Send(message)),
            LinkEvent::OutgoingClosed => (LinkState::Connecting, LinkAction::Reconnect),
            LinkEvent::Incoming(frame) => (LinkState::Connected, LinkAction::Forward(frame)),
            LinkEvent::IncomingFailed => (LinkState::Connected, LinkAction::Report),
            _ => (LinkState::Connected, LinkAction::Ignore),
        },
    }
}

} // verus!
