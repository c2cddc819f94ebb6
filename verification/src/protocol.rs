use vstd::prelude::*;

verus! {

/// A session credential: who the user is, and the token that the server issued
/// for the session.
#[derive(Clone, Copy, Debug, PartialEq)]
pub struct UserSession {
    pub user_id: i32,
    pub session_token: [u8; 32],
}

impl Default for UserSession {
    fn default() -> (session: UserSession)
        ensures
            session.user_id == 0,
            forall|i: int| 0 <= i < 32 ==> session.session_token[i] == 0,
    {
        UserSession { user_id: 0, session_token: [0u8; 32] }
    }
}

/// A point in time without a zone: whole seconds since the start of 1970, and
/// the nanoseconds past that second.
#[derive(Clone, Copy, Debug, PartialEq, Eq, Structural)]
pub struct Timestamp {
    pub secs: i64,
    pub nanos: u32,
}

/// The bound on the nanoseconds of a point in time: a full second, and once
/// more the same for a leap second.
pub const SUBSEC_NANOS_LIMIT: u32 = 2_000_000_000;

/// `Utc::now`, as the whole seconds since the start of 1970 and the
/// nanoseconds past them (`timestamp`, `timestamp_subsec_nanos`). The clock
/// decides which point in time comes. Whichever comes, its nanoseconds stay
/// below two seconds: the second itself, or a leap second on top of it.
#[verifier::external_body]
fn utc_now() -> (now: Timestamp)
    ensures
        now.nanos < SUBSEC_NANOS_LIMIT,
{
    let now = chrono::Utc::now();
    Timestamp { secs: now.timestamp(), nanos: now.timestamp_subsec_nanos() }
}

impl Timestamp {
    /// Whether the nanoseconds are those of a point in time: less than a
    /// second, or less than two in a leap second.
    pub open spec fn is_valid(self) -> bool {
        self.nanos < SUBSEC_NANOS_LIMIT
    }

    /// The current date and time, in UTC: some valid point in time, as the
    /// clock of this machine gives it.
    pub fn now() -> (now: Timestamp)
        ensures
            now.is_valid(),
    {
        utc_now()
    }
}

#[derive(Debug)]
pub struct FetchUnknownChatroom {
    pub user_session: UserSession,
    pub chatroom_id: String,
    pub password: Option<String>,
}

#[derive(Debug)]
pub struct FetchKnownChatrooms {
    pub user_session: UserSession,
    pub chatroom_uids: Vec<i32>,
}

#[derive(Debug, Clone, PartialEq)]
pub struct FetchKnownChatroomResponse {
    pub chatrooms: Vec<FetchChatroomResponse>,
}

#[derive(Debug, Clone, PartialEq, Hash, Eq)]
pub struct FetchChatroomResponse {
    pub chatroom_uid: i32,
    pub chatroom_id: String,
    pub chatroom_name: String,
    /// An entry may be empty: the store keeps the list that way.
    pub participants: Vec<Option<i32>>,
    pub is_direct_message: bool,
    pub last_message_id: Option<i32>,
}

#[derive(Debug, Clone)]
pub struct CreateChatroomRequest {
    pub user_session: UserSession,
    pub chatroom_name: String,
    pub chatroom_passw: Option<String>,
}

/// The kinds of message that a chatroom carries.
#[derive(Debug, Clone)]
pub enum WebSocketChatroomMessages {
    StringMessage(String),
}

#[derive(Debug, Clone)]
pub struct UserLookup {
    pub username: String,
}

#[derive(Debug, Clone, Copy)]
pub struct BulkChatroomMsgRequest {
    pub chatroom_uid: i32,
    pub count: i32,
    pub offset_id: i32,
}

#[derive(Debug, Clone, Copy)]
pub enum MessageFetchType {
    BulkFromChatroom(BulkChatroomMsgRequest),
    SingluarFromId(i32),
}

#[derive(Debug, Clone)]
pub struct FetchMessagesResponse {
    pub messages: Vec<ChatroomMessageResponse>,
}

/// A message as the store holds it.
#[derive(Debug, Clone)]
pub struct ChatroomMessageResponse {
    pub message_id: i32,
    /// The user who sent the message.
    pub message_owner_id: i32,
    /// The message that this one replies to.
    pub replying_to_msg_id: Option<i32>,
    /// The chatroom that the message was sent to.
    pub sent_to: i32,
    /// The message itself, encoded as the store keeps it.
    pub raw_message: Vec<u8>,
    pub date_issued: Timestamp,
}

} // verus!
