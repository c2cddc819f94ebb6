use crate::client::WebSocketChatroomMessageClient;
use crate::connections::AddrKey;
use crate::connections::OpenConnections;
use crate::connections::RemoteAddr;
use crate::delivery::lemma_take_to_set_step;
use crate::delivery::DeliveryReport;
use crate::history::lemma_empty_history_in_order;
use crate::history::lemma_publish_keeps_order;
use crate::history::in_room;
use crate::history::is_subsequence;
use crate::history::lemma_subsequence_filter;
use crate::history::of_room;
use crate::history::History;
use crate::outbound::Outbox;
use crate::protocol::UserSession;
use crate::registry::all_occupied;
use crate::registry::joined;
use crate::registry::lemma_without_identity_twice;
use crate::registry::members_of;
use crate::registry::publishes;
use crate::registry::without_identity;
use crate::hub::Members;
use crate::registry::Registry;
use crate::server::WebSocketChatroomMessageServer;
use vstd::prelude::*;

verus! {

/// What the relay reports to the code that handles connections.
#[derive(Clone, Copy, Debug, PartialEq, Eq, Structural)]
pub enum RelayError {
    /// The address already has a live connection.
    DuplicateConnection,
    /// The first frame was no credential, or the authenticator refused it.
    AuthenticationFailed,
    /// A frame could not be decoded, or a credential came after the first
    /// frame.
    MalformedFrame,
    /// The store refused the message or failed to keep it.
    PersistenceRejected,
    /// A subscriber's queue did not take a frame. Never handed to a caller:
    /// the subscriber is dropped from the room.
    SubscriberUnreachable,
}

/// How far an error reaches.
#[derive(Clone, Copy, Debug, PartialEq, Eq, Structural)]
pub enum Severity {
    /// The connection is closed and all its subscriptions are released.
    ConnectionFatal,
    /// The message is not delivered; the connection stays open.
    MessageFatal,
    /// The subscriber is dropped from the room; the publish goes on.
    SubscriberFatal,
}

impl RelayError {
    /// How far the error reaches.
    pub open spec fn spec_severity(self) -> Severity {
        match self {
            RelayError::DuplicateConnection => Severity::ConnectionFatal,
            RelayError::AuthenticationFailed => Severity::ConnectionFatal,
            RelayError::MalformedFrame => Severity::ConnectionFatal,
            RelayError::PersistenceRejected => Severity::MessageFatal,
            RelayError::SubscriberUnreachable => Severity::SubscriberFatal,
        }
    }

    #[verifier::when_used_as_spec(spec_severity)]
    pub fn severity(self) -> (severity: Severity)
        ensures
            severity == self.spec_severity(),
    {
        match self {
            RelayError::DuplicateConnection => Severity::ConnectionFatal,
            RelayError::AuthenticationFailed => Severity::ConnectionFatal,
            RelayError::MalformedFrame => Severity::ConnectionFatal,
            RelayError::PersistenceRejected => Severity::MessageFatal,
            RelayError::SubscriberUnreachable => Severity::SubscriberFatal,
        }
    }

    /// Whether the connection is closed on this error.
    pub fn closes_connection(self) -> (closes: bool)
        ensures
            closes == (self.spec_severity() == Severity::ConnectionFatal),
    {
        match self.severity() {
            Severity::ConnectionFatal => true,
            _ => false,
        }
    }

    /// Whether a caller ever sees this error; a subscriber that cannot be
    /// reached is pruned in silence.
    pub fn is_surfaced(self) -> (surfaced: bool)
        ensures
            surfaced == (self != RelayError::SubscriberUnreachable),
    {
        match self {
            RelayError::SubscriberUnreachable => false,
            _ => true,
        }
    }
}

/// One decoded frame of a connection.
pub enum Frame {
    /// A session credential.
    Credential(UserSession),
    /// A message for a chatroom.
    Envelope(WebSocketChatroomMessageServer),
    /// Bytes that decode to neither.
    Undecodable,
}

/// What the store answered when it was asked to keep a message.
pub enum StoreReply {
    /// The message as the store keeps it, and the frame that carries it to the
    /// subscribers.
    Stored { message: WebSocketChatroomMessageClient, frame: Vec<u8> },
    /// The store refused the message or failed.
    Rejected,
}

/// What the store is asked to keep.
pub struct PersistRequest {
    pub room_id: i32,
    pub sender: UserSession,
    pub reply_to: Option<i32>,
    pub payload: crate::protocol::WebSocketChatroomMessages,
}

/// One authenticated client: who it is, where it connects from, and the queue
/// that its writer drains.
pub struct Connection {
    identity: UserSession,
    address: RemoteAddr,
    outbox: Outbox,
}

impl Connection {
    pub closed spec fn identity(&self) -> UserSession {
        self.identity
    }

    pub closed spec fn address(&self) -> RemoteAddr {
        self.address
    }

    /// The number of the connection, which is that of its queue.
    pub closed spec fn id(&self) -> u64 {
        self.outbox.connection_id()
    }

    pub fn user_id(&self) -> (user_id: i32)
        ensures
            user_id == self.identity().user_id,
    {
        self.identity.user_id
    }

    pub fn remote_address(&self) -> (address: RemoteAddr)
        ensures
            address == self.address(),
    {
        self.address
    }

    pub fn connection_id(&self) -> (id: u64)
        ensures
            id == self.id(),
    {
        self.outbox.connection()
    }

    /// What the store is asked to keep for `envelope`. The sender is the
    /// connection's own identity, whatever the envelope claims.
    pub fn route(&self, envelope: WebSocketChatroomMessageServer) -> (request: PersistRequest)
        ensures
            request.room_id == envelope.sent_to,
            request.sender == self.identity(),
            request.reply_to == envelope.replying_to_msg_id,
            request.payload == envelope.message,
    {
        PersistRequest {
            room_id: envelope.sent_to,
            sender: self.identity,
            reply_to: envelope.replying_to_msg_id,
            payload: envelope.message,
        }
    }
}

/// The credential that a connection's first frame carries. Any other first
/// frame fails the authentication.
pub fn credential_of(first_frame: Frame) -> (credential: Result<UserSession, RelayError>)
    ensures
        credential == match first_frame {
            Frame::Credential(session) => Ok::<UserSession, RelayError>(session),
            _ => Err(RelayError::AuthenticationFailed),
        },
{
    match first_frame {
        Frame::Credential(session) => Ok(session),
        _ => Err(RelayError::AuthenticationFailed),
    }
}

/// Whether `rooms` are the rooms that `listed` names, entry by entry.
pub open spec fn names_rooms(listed: Seq<Option<i32>>, rooms: Seq<i32>) -> bool {
    &&& rooms.len() == listed.len()
    &&& forall|i: int| 0 <= i < listed.len() ==> #[trigger] listed[i] == Some(rooms[i])
}

/// The rooms to subscribe a client to at its handshake, from what the store
/// answered when it was asked which rooms the client has joined. A lookup that
/// failed (`None`) lets the client in without a room. A list with an entry
/// that names no room is no list of rooms: there are none to give.
pub fn rooms_to_join(answer: Option<Vec<Option<i32>>>) -> (rooms: Option<Vec<i32>>)
    ensures
        rooms is Some == (answer matches Some(listed) ==> forall|i: int|
            0 <= i < listed.len() ==> (#[trigger] listed[i]) is Some),
        rooms matches Some(found) ==> match answer {
            Some(listed) => names_rooms(listed@, found@),
            None => found@.len() == 0,
        },
{
    match answer {
        None => Some(Vec::new()),
        Some(listed) => {
            let mut found: Vec<i32> = Vec::new();
            let mut i: usize = 0;
            while i < listed.len()
                invariant
                    answer == Some(listed),
                    i <= listed.len(),
                    found@.len() == i,
                    forall|j: int| 0 <= j < i ==> #[trigger] listed[j] == Some(found@[j]),
                decreases listed.len() - i,
            {
                match listed[i] {
                    Some(room) => found.push(room),
                    None => {
                        assert(!(listed[i as int] is Some));
                        return None;
                    },
                }
                i += 1;
            }
            Some(found)
        },
    }
}

/// `rooms` after `identity` was subscribed, with the queue of `connection`, to
/// every room of `wanted`; a room without a hub gets one.
pub open spec fn subscribed_to(
    rooms: Map<i32, Members>,
    wanted: Set<i32>,
    identity: i32,
    connection: u64,
) -> Map<i32, Members> {
    Map::new(
        |r: i32| rooms.contains_key(r) || wanted.contains(r),
        |r: i32|
            if wanted.contains(r) {
                members_of(rooms, r).insert(identity, connection)
            } else {
                rooms[r]
            },
    )
}

/// Frames reach a subscriber in the order of their publishing: what the queue
/// of a subscriber has taken so far, in the order in which it took it, is what
/// is left of the published frames when those that it did not take are struck
/// out. Nothing is said of the order between two subscribers.
pub proof fn lemma_delivery_in_publish_order(relay: Relay, identity: i32, connection: u64)
    requires
        relay.wf(),
    ensures
        is_subsequence(
            relay.history().taken_by((identity, connection)),
            relay.history().published,
        ),
{
}

/// Room by room: the frames of a room that the queue of a subscriber has
/// taken came to it in the order in which they were published to the room.
pub proof fn lemma_room_delivery_in_publish_order(
    relay: Relay,
    room: i32,
    identity: i32,
    connection: u64,
)
    requires
        relay.wf(),
    ensures
        is_subsequence(
            in_room(relay.history().taken_by((identity, connection)), room),
            in_room(relay.history().published, room),
        ),
{
    lemma_subsequence_filter(
        relay.history().taken_by((identity, connection)),
        relay.history().published,
        of_room(room),
    );
}

/// Ending a connection a second time changes neither the open addresses nor the
/// rooms.
pub proof fn lemma_disconnect_twice(rooms: Map<i32, Members>, open: Set<AddrKey>, connection: Connection)
    ensures
        open.remove(connection.address().key()).remove(connection.address().key())
            == open.remove(connection.address().key()),
        without_identity(
            without_identity(rooms, connection.identity().user_id),
            connection.identity().user_id,
        ) == without_identity(rooms, connection.identity().user_id),
{
    let key = connection.address().key();
    assert(open.remove(key).remove(key) =~= open.remove(key));
    lemma_without_identity_twice(rooms, connection.identity().user_id);
}

/// The relay coordinator: the subscription registry, the addresses that have
/// a live connection, and whether a publisher gets its own message back.
pub struct Relay {
    registry: Registry,
    open: OpenConnections,
    echo: bool,
    history: Ghost<History>,
}

impl Relay {
    /// The rooms that have a hub, each with its subscribers.
    pub closed spec fn rooms(&self) -> Map<i32, Members> {
        self.registry.rooms()
    }

    /// The addresses that have a live connection.
    pub closed spec fn open(&self) -> Set<AddrKey> {
        self.open@
    }

    /// Whether a publisher gets its own message back.
    pub closed spec fn echoes(&self) -> bool {
        self.echo
    }

    /// What the relay has published so far, and what each queue took of it.
    pub closed spec fn history(&self) -> History {
        self.history@
    }

    /// A room has a hub exactly while it has a subscriber, and every queue has
    /// taken its frames in the order of their publishing.
    pub open spec fn wf(&self) -> bool {
        &&& all_occupied(self.rooms())
        &&& self.history().in_publish_order()
    }

    /// Whom a fan-out for a message of `sender` leaves out.
    pub open spec fn skipped(&self, sender: i32) -> Option<i32> {
        if self.echoes() {
            None
        } else {
            Some(sender)
        }
    }

    /// A relay without rooms and without connections.
    pub fn new(echo: bool) -> (relay: Relay)
        ensures
            relay.wf(),
            relay.rooms() == Map::<i32, Members>::empty(),
            relay.open() == Set::<AddrKey>::empty(),
            relay.echoes() == echo,
            relay.history() == History::empty(),
    {
        proof {
            lemma_empty_history_in_order();
        }
        Relay {
            registry: Registry::new(),
            open: OpenConnections::new(),
            echo,
            history: Ghost(History::empty()),
        }
    }

    pub fn has_hub(&self, room: i32) -> (found: bool)
        ensures
            found == self.rooms().contains_key(room),
    {
        self.registry.has_hub(room)
    }

    pub fn is_open(&self, address: RemoteAddr) -> (found: bool)
        ensures
            found == self.open().contains(address.key()),
    {
        self.open.is_open(address)
    }

    /// The number of the connection whose queue `identity` has in `room`, if it
    /// is subscribed there.
    pub fn connection_of(&mut self, room: i32, identity: i32) -> (found: Option<u64>)
        ensures
            final(self).rooms() == old(self).rooms(),
            final(self).open() == old(self).open(),
            final(self).echoes() == old(self).echoes(),
            final(self).history() == old(self).history(),
            found == if members_of(old(self).rooms(), room).contains_key(identity) {
                Some(old(self).rooms()[room][identity])
            } else {
                None
            },
    {
        self.registry.connection_of(room, identity)
    }

    /// Registers `address` as open. An address that already has a live
    /// connection is refused, and nothing changes.
    pub fn reserve(&mut self, address: RemoteAddr) -> (reserved: Result<(), RelayError>)
        ensures
            final(self).rooms() == old(self).rooms(),
            final(self).echoes() == old(self).echoes(),
            final(self).history() == old(self).history(),
            reserved == if old(self).open().contains(address.key()) {
                Err::<(), RelayError>(RelayError::DuplicateConnection)
            } else {
                Ok(())
            },
            final(self).open() == old(self).open().insert(address.key()),
            reserved is Err ==> final(self).open() == old(self).open(),
    {
        if self.open.claim(address) {
            Ok(())
        } else {
            Err(RelayError::DuplicateConnection)
        }
    }

    /// Releases a reserved address whose handshake ended before a credential
    /// came. The result says whether the address was open.
    pub fn release(&mut self, address: RemoteAddr) -> (was_open: bool)
        ensures
            final(self).rooms() == old(self).rooms(),
            final(self).echoes() == old(self).echoes(),
            final(self).history() == old(self).history(),
            final(self).open() == old(self).open().remove(address.key()),
            was_open == old(self).open().contains(address.key()),
    {
        self.open.release(address)
    }

    /// Subscribes `identity` with `outbox` to every room of `wanted`, making a
    /// hub for each room that has none.
    pub fn auto_subscribe(&mut self, identity: i32, wanted: &Vec<i32>, outbox: &Outbox)
        requires
            old(self).wf(),
        ensures
            final(self).wf(),
            final(self).open() == old(self).open(),
            final(self).echoes() == old(self).echoes(),
            final(self).history() == old(self).history(),
            final(self).rooms() == subscribed_to(
                old(self).rooms(),
                wanted@.to_set(),
                identity,
                outbox.connection_id(),
            ),
    {
        let ghost before = self.rooms();
        let ghost connection = outbox.connection_id();
        let mut i: usize = 0;
        assert(self.rooms() =~= subscribed_to(
            before,
            wanted@.take(0).to_set(),
            identity,
            connection,
        ));
        while i < wanted.len()
            invariant
                i <= wanted.len(),
                self.wf(),
                self.open() == old(self).open(),
                self.echoes() == old(self).echoes(),
                self.history() == old(self).history(),
                connection == outbox.connection_id(),
                self.rooms() == subscribed_to(
                    before,
                    wanted@.take(i as int).to_set(),
                    identity,
                    connection,
                ),
            decreases wanted.len() - i,
        {
            let room = wanted[i];
            self.registry.join(room, identity, outbox.another_handle());
            proof {
                lemma_take_to_set_step(wanted@, i as int);
                assert(self.rooms() =~~= subscribed_to(
                    before,
                    wanted@.take(i + 1).to_set(),
                    identity,
                    connection,
                ));
            }
            i += 1;
        }
        assert(wanted@.take(wanted.len() as int) =~= wanted@);
    }

    /// Ends the handshake of a connection whose address is reserved. Where the
    /// authenticator accepted the credential, the client is subscribed with
    /// `outbox` to every room of `joined`, before any of its messages is
    /// looked at, and its connection is handed out. Where it did not, the
    /// address is released and the authentication has failed.
    pub fn enroll(
        &mut self,
        address: RemoteAddr,
        session: UserSession,
        verified: bool,
        joined: &Vec<i32>,
        outbox: Outbox,
    ) -> (enrolled: Result<Connection, RelayError>)
        requires
            old(self).wf(),
        ensures
            final(self).wf(),
            final(self).echoes() == old(self).echoes(),
            final(self).history() == old(self).history(),
            enrolled is Ok == verified,
            enrolled matches Ok(connection) ==> {
                &&& connection.identity() == session
                &&& connection.address() == address
                &&& connection.id() == outbox.connection_id()
                &&& final(self).open() == old(self).open()
                &&& final(self).rooms() == subscribed_to(
                    old(self).rooms(),
                    joined@.to_set(),
                    session.user_id,
                    outbox.connection_id(),
                )
            },
            enrolled matches Err(error) ==> {
                &&& error == RelayError::AuthenticationFailed
                &&& final(self).open() == old(self).open().remove(address.key())
                &&& final(self).rooms() == old(self).rooms()
            },
    {
        if verified {
            self.auto_subscribe(session.user_id, joined, &outbox);
            Ok(Connection { identity: session, address, outbox })
        } else {
            self.open.release(address);
            Err(RelayError::AuthenticationFailed)
        }
    }

    /// Takes a new connection in: refuses an address that already has a live
    /// connection, lets only a credential that the authenticator accepted
    /// pass as the first frame, and subscribes the client to every room that
    /// the store lists for it. A refused connection leaves the relay as it
    /// was; the client that holds the address stays connected and subscribed.
    pub fn accept(
        &mut self,
        address: RemoteAddr,
        first_frame: Frame,
        verified: bool,
        joined: &Vec<i32>,
        outbox: Outbox,
    ) -> (accepted: Result<Connection, RelayError>)
        requires
            old(self).wf(),
        ensures
            final(self).wf(),
            final(self).echoes() == old(self).echoes(),
            final(self).history() == old(self).history(),
            accepted matches Err(error) ==> {
                &&& final(self).open() == old(self).open()
                &&& final(self).rooms() == old(self).rooms()
                &&& error == if old(self).open().contains(address.key()) {
                    RelayError::DuplicateConnection
                } else {
                    RelayError::AuthenticationFailed
                }
            },
            accepted is Ok == (!old(self).open().contains(address.key()) && first_frame
                is Credential && verified),
            accepted matches Ok(connection) ==> {
                &&& first_frame matches Frame::Credential(session)
                &&& connection.identity() == session
                &&& connection.address() == address
                &&& connection.id() == outbox.connection_id()
                &&& final(self).open() == old(self).open().insert(address.key())
                &&& final(self).rooms() == subscribed_to(
                    old(self).rooms(),
                    joined@.to_set(),
                    session.user_id,
                    outbox.connection_id(),
                )
                &&& forall|i: int|
                    0 <= i < joined.len() ==> members_of(
                        final(self).rooms(),
                        #[trigger] joined[i],
                    ).contains_pair(session.user_id, outbox.connection_id())
            },
    {
        let ghost open_before = self.open();
        match self.reserve(address) {
            Err(error) => Err(error),
            Ok(()) => match credential_of(first_frame) {
                Err(error) => {
                    self.release(address);
                    assert(self.open() =~= open_before);
                    Err(error)
                },
                Ok(session) => {
                    let enrolled = self.enroll(address, session, verified, joined, outbox);
                    proof {
                        if !verified {
                            assert(self.open() =~= open_before);
                        } else {
                            assert forall|i: int| 0 <= i < joined.len() implies members_of(
                                self.rooms(),
                                #[trigger] joined[i],
                            ).contains_pair(session.user_id, outbox.connection_id()) by {
                                assert(joined@.to_set().contains(joined@[i]));
                            }
                        }
                    }
                    enrolled
                },
            },
        }
    }

    /// Delivers what the store answered for a message of `sender`. A message
    /// that the store did not keep is not fanned out and changes nothing. A
    /// stored message makes its sender a subscriber of the room, with a hub
    /// if the room had none, and its frame is offered once to the queue of
    /// every subscriber (but the sender, where the relay does not echo).
    /// Subscribers whose queue does not take it are dropped from the room.
    pub fn dispatch(&mut self, sender: &Connection, reply: StoreReply) -> (dispatched: Result<
        DeliveryReport,
        RelayError,
    >)
        requires
            old(self).wf(),
        ensures
            final(self).wf(),
            final(self).open() == old(self).open(),
            final(self).echoes() == old(self).echoes(),
            dispatched is Ok == reply is Stored,
            dispatched matches Err(error) ==> error == RelayError::PersistenceRejected
                && final(self).rooms() == old(self).rooms() && final(self).history() == old(
                self,
            ).history(),
            dispatched matches Ok(report) ==> final(self).history() == old(
                self,
            ).history().after_publish(
                reply->message.sent_to,
                reply->frame@,
                joined(
                    old(self).rooms(),
                    reply->message.sent_to,
                    sender.identity().user_id,
                    sender.id(),
                )[reply->message.sent_to],
                report.delivered@,
            ),
            dispatched matches Ok(report) ==> publishes(
                report,
                joined(
                    old(self).rooms(),
                    reply->message.sent_to,
                    sender.identity().user_id,
                    sender.id(),
                ),
                reply->message.sent_to,
                old(self).skipped(sender.identity().user_id),
                final(self).rooms(),
            ),
    {
        match reply {
            StoreReply::Rejected => Err(RelayError::PersistenceRejected),
            StoreReply::Stored { message, frame } => {
                let room = message.sent_to;
                let identity = sender.identity.user_id;
                self.registry.join(room, identity, sender.outbox.another_handle());
                let skip = if self.echo {
                    None
                } else {
                    Some(identity)
                };
                let ghost members = self.rooms()[room];
                let report = self.registry.publish(room, &frame, skip);
                proof {
                    lemma_publish_keeps_order(
                        self.history@,
                        room,
                        frame@,
                        members,
                        report.delivered@,
                    );
                }
                self.history = Ghost(
                    self.history@.after_publish(room, frame@, members, report.delivered@),
                );
                Ok(report)
            },
        }
    }

    /// Ends a connection: its address is released and its identity leaves
    /// every room; a room that this leaves without a subscriber loses its hub.
    /// Ending a connection that has been ended changes nothing.
    pub fn disconnect(&mut self, connection: &Connection)
        requires
            old(self).wf(),
        ensures
            final(self).wf(),
            final(self).echoes() == old(self).echoes(),
            final(self).history() == old(self).history(),
            final(self).open() == old(self).open().remove(connection.address().key()),
            final(self).rooms() == without_identity(
                old(self).rooms(),
                connection.identity().user_id,
            ),
    {
        self.open.release(connection.address);
        self.registry.forget(connection.identity.user_id);
    }
}

} // verus!
