use crate::protocol::UserSession;
use crate::relay::Frame;
use crate::relay::RelayError;
use crate::server::WebSocketChatroomMessageServer;
use vstd::prelude::*;

verus! {

/// Where a connection stands on its read path.
#[derive(Clone, Copy, Debug, PartialEq, Eq, Structural)]
pub enum Phase {
    /// Nothing was read yet: the first frame has to be a credential.
    AwaitingCredential,
    /// The credential is with the authenticator; no other traffic is taken
    /// before it has answered.
    Authenticating,
    /// Authenticated: message frames are routed to the relay.
    Live,
    /// The connection is over.
    Closed,
}

/// What the reader of a connection got from the socket.
pub enum ReadEvent {
    /// One frame, decoded.
    Received(Frame),
    /// The socket failed.
    Failed,
    /// The peer closed the socket.
    Ended,
}

/// What the reader has to do next.
pub enum ReadAction {
    /// Ask the authenticator about the credential.
    Authenticate(UserSession),
    /// Hand the message to the relay.
    Dispatch(WebSocketChatroomMessageServer),
    /// Close the socket and end the connection, for the reason given; none
    /// where the socket itself ended.
    Close(Option<RelayError>),
    /// Nothing: the connection is over already.
    Ignore,
}

/// The frame that the bytes of one message stand for, from what they decode
/// to as a credential and as a message. What the connection waits for counts
/// first: the credential before a connection is authenticated, the message
/// after. Bytes that decode to neither are undecodable.
pub open spec fn framed(
    phase: Phase,
    credential: Option<UserSession>,
    envelope: Option<WebSocketChatroomMessageServer>,
) -> Frame {
    if phase == Phase::AwaitingCredential {
        match (credential, envelope) {
            (Some(session), _) => Frame::Credential(session),
            (None, Some(message)) => Frame::Envelope(message),
            (None, None) => Frame::Undecodable,
        }
    } else {
        match (envelope, credential) {
            (Some(message), _) => Frame::Envelope(message),
            (None, Some(session)) => Frame::Credential(session),
            (None, None) => Frame::Undecodable,
        }
    }
}

/// Makes the frame of one message from its two decodings.
pub fn frame_of(
    phase: Phase,
    credential: Option<UserSession>,
    envelope: Option<WebSocketChatroomMessageServer>,
) -> (frame: Frame)
    ensures
        frame == framed(phase, credential, envelope),
{
    let credential_first = match phase {
        Phase::AwaitingCredential => true,
        _ => false,
    };
    if credential_first {
        match credential {
            Some(session) => Frame::Credential(session),
            None => match envelope {
                Some(message) => Frame::Envelope(message),
                None => Frame::Undecodable,
            },
        }
    } else {
        match envelope {
            Some(message) => Frame::Envelope(message),
            None => match credential {
                Some(session) => Frame::Credential(session),
                None => Frame::Undecodable,
            },
        }
    }
}

/// The phase that follows `phase` on `event`.
pub open spec fn next_phase(phase: Phase, event: ReadEvent) -> Phase {
    match (phase, event) {
        (Phase::AwaitingCredential, ReadEvent::Received(Frame::Credential(_))) => {
            Phase::Authenticating
        },
        (Phase::Live, ReadEvent::Received(Frame::Envelope(_))) => Phase::Live,
        _ => Phase::Closed,
    }
}

/// What the reader does in `phase` on `event`.
pub open spec fn reaction(phase: Phase, event: ReadEvent) -> ReadAction {
    match phase {
        Phase::Closed => ReadAction::Ignore,
        Phase::AwaitingCredential => match event {
            ReadEvent::Received(Frame::Credential(session)) => ReadAction::Authenticate(session),
            ReadEvent::Received(_) => ReadAction::Close(Some(RelayError::AuthenticationFailed)),
            _ => ReadAction::Close(None),
        },
        Phase::Authenticating => match event {
            ReadEvent::Received(_) => ReadAction::Close(Some(RelayError::MalformedFrame)),
            _ => ReadAction::Close(None),
        },
        Phase::Live => match event {
            ReadEvent::Received(Frame::Envelope(envelope)) => ReadAction::Dispatch(envelope),
            ReadEvent::Received(_) => ReadAction::Close(Some(RelayError::MalformedFrame)),
            _ => ReadAction::Close(None),
        },
    }
}

/// One step of a connection's read path: the phase that follows, and what the
/// reader has to do. Only the very first frame may be a credential, and only
/// an authenticated connection has its messages dispatched.
pub fn on_read(phase: Phase, event: ReadEvent) -> (step: (Phase, ReadAction))
    ensures
        step.0 == next_phase(phase, event),
        step.1 == reaction(phase, event),
{
    match phase {
        Phase::Closed => (Phase::Closed, ReadAction::Ignore),
        Phase::AwaitingCredential => match event {
            ReadEvent::Received(Frame::Credential(session)) => (
                Phase::Authenticating,
                ReadAction::Authenticate(session),
            ),
            ReadEvent::Received(_) => (
                Phase::Closed,
                ReadAction::Close(Some(RelayError::AuthenticationFailed)),
            ),
            _ => (Phase::Closed, ReadAction::Close(None)),
        },
        Phase::Authenticating => match event {
            ReadEvent::Received(_) => (
                Phase::Closed,
                ReadAction::Close(Some(RelayError::MalformedFrame)),
            ),
            _ => (Phase::Closed, ReadAction::Close(None)),
        },
        Phase::Live => match event {
            ReadEvent::Received(Frame::Envelope(envelope)) => (
                Phase::Live,
                ReadAction::Dispatch(envelope),
            ),
            ReadEvent::Received(_) => (
                Phase::Closed,
                ReadAction::Close(Some(RelayError::MalformedFrame)),
            ),
            _ => (Phase::Closed, ReadAction::Close(None)),
        },
    }
}

/// The phase after the authenticator has answered: an accepted credential
/// makes the connection live, a refused one closes it. In any other phase the
/// answer changes nothing.
pub fn on_verdict(phase: Phase, accepted: bool) -> (step: (Phase, Option<RelayError>))
    ensures
        step == if phase == Phase::Authenticating {
            if accepted {
                (Phase::Live, None::<RelayError>)
            } else {
                (Phase::Closed, Some(RelayError::AuthenticationFailed))
            }
        } else {
            (phase, None::<RelayError>)
        },
{
    match phase {
        Phase::Authenticating => if accepted {
            (Phase::Live, None)
        } else {
            (Phase::Closed, Some(RelayError::AuthenticationFailed))
        },
        _ => (phase, None),
    }
}

/// A message is dispatched only on a live connection, and a connection is live
/// only after a credential was its first frame.
pub proof fn lemma_dispatch_only_when_live(phase: Phase, event: ReadEvent)
    ensures
        reaction(phase, event) is Dispatch ==> phase == Phase::Live,
        next_phase(phase, event) == Phase::Live ==> phase == Phase::Live,
        reaction(phase, event) is Authenticate ==> phase == Phase::AwaitingCredential,
{
}

} // verus!
