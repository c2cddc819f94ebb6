use crate::client::UserInformation;
use crate::client::WebSocketChatroomMessageClient;
use crate::keys::generate_random_secure_key;
use crate::keys::sample_chatroom_id;
use crate::keys::is_id_char;
use crate::keys::CHATROOM_ID_LENGTH;
use crate::protocol::ChatroomMessageResponse;
use crate::protocol::CreateChatroomRequest;
use crate::protocol::FetchChatroomResponse;
use crate::protocol::FetchKnownChatroomResponse;
use crate::protocol::MessageFetchType;
use crate::protocol::Timestamp;
use crate::protocol::UserSession;
use crate::relay::PersistRequest;
use crate::server::LoginResponse;
use vstd::prelude::*;

verus! {

/// Why a request is turned down, by the answer that the client gets.
#[derive(Clone, Copy, Debug, PartialEq, Eq, Structural)]
pub enum ApiError {
    /// The name is taken.
    Found,
    /// The user is not in the chatroom that the messages belong to.
    Unauthorized,
    /// The session is not valid, or the user is not in the chatroom.
    Forbidden,
    /// No such account or chatroom.
    NotFound,
    /// The user number is no number.
    MethodNotAllowed,
    /// The store did not answer a lookup.
    RequestTimeout,
    /// The number of messages asked for is out of bounds.
    PayloadTooLarge,
    /// The store failed.
    InternalServerError,
}

impl ApiError {
    /// The status code of the answer.
    pub open spec fn spec_status(self) -> u16 {
        match self {
            ApiError::Found => 302,
            ApiError::Unauthorized => 401,
            ApiError::Forbidden => 403,
            ApiError::NotFound => 404,
            ApiError::MethodNotAllowed => 405,
            ApiError::RequestTimeout => 408,
            ApiError::PayloadTooLarge => 413,
            ApiError::InternalServerError => 500,
        }
    }

    #[verifier::when_used_as_spec(spec_status)]
    pub fn status(self) -> (code: u16)
        ensures
            code == self.spec_status(),
    {
        match self {
            ApiError::Found => 302,
            ApiError::Unauthorized => 401,
            ApiError::Forbidden => 403,
            ApiError::NotFound => 404,
            ApiError::MethodNotAllowed => 405,
            ApiError::RequestTimeout => 408,
            ApiError::PayloadTooLarge => 413,
            ApiError::InternalServerError => 500,
        }
    }
}

/// The most messages that one request may ask for.
pub const MAX_MESSAGES_PER_REQUEST: i32 = 255;

/// A chatroom as the store keeps it.
#[derive(Debug, Clone)]
pub struct ChatroomEntry {
    pub id: i32,
    pub chatroom_id: String,
    pub chatroom_name: String,
    pub chatroom_password: Option<String>,
    pub participants: Vec<Option<i32>>,
    pub is_direct_message: bool,
    pub last_message_id: Option<i32>,
}

/// A message as the store keeps it.
#[derive(Debug, Clone)]
pub struct MessageEntry {
    pub id: i32,
    pub owner_user_id: i32,
    pub replying_to_msg: Option<i32>,
    pub parent_chatroom_id: i32,
    pub raw_message: Vec<u8>,
    pub send_date: Timestamp,
}

/// What the store is asked for when messages are fetched.
#[derive(Clone, Copy, Debug, PartialEq, Eq, Structural)]
pub enum FetchPlan {
    /// Up to `limit` messages of `chatroom_uid` with a number below
    /// `before_id`, lowest number first.
    Page { chatroom_uid: i32, before_id: i32, limit: i32 },
    /// The one message with this number.
    One { message_id: i32 },
}

/// Whether `room` is among `list`.
pub fn lists_room(list: &Vec<Option<i32>>, room: i32) -> (found: bool)
    ensures
        found == list@.contains(Some(room)),
{
    let mut i: usize = 0;
    while i < list.len()
        invariant
            i <= list.len(),
            forall|j: int| 0 <= j < i ==> list[j] != Some(room),
        decreases list.len() - i,
    {
        match list[i] {
            Some(r) => {
                if r == room {
                    return true;
                }
            },
            None => {},
        }
        i += 1;
    }
    false
}

/// What a valid request for messages asks the store for.
pub open spec fn fetch_plan_of(request: MessageFetchType) -> FetchPlan {
    match request {
        MessageFetchType::BulkFromChatroom(bulk) => FetchPlan::Page {
            chatroom_uid: bulk.chatroom_uid,
            before_id: bulk.offset_id,
            limit: bulk.count,
        },
        MessageFetchType::SingluarFromId(message_id) => FetchPlan::One { message_id },
    }
}

/// Why a request for messages is turned down before the store is asked, if it
/// is: a page of no messages or of more than the bound is too large, and a
/// page of a chatroom that the user has not joined is not authorized.
pub open spec fn fetch_refusal(request: MessageFetchType, joined: Seq<Option<i32>>) -> Option<
    ApiError,
> {
    match request {
        MessageFetchType::BulkFromChatroom(bulk) => {
            if bulk.count == 0 || bulk.count > MAX_MESSAGES_PER_REQUEST {
                Some(ApiError::PayloadTooLarge)
            } else if !joined.contains(Some(bulk.chatroom_uid)) {
                Some(ApiError::Unauthorized)
            } else {
                None
            }
        },
        MessageFetchType::SingluarFromId(_) => None,
    }
}

/// Decides a request for messages of a user who has joined `joined`.
pub fn plan_fetch(request: MessageFetchType, joined: &Vec<Option<i32>>) -> (plan: Result<
    FetchPlan,
    ApiError,
>)
    ensures
        plan == match fetch_refusal(request, joined@) {
            Some(error) => Err::<FetchPlan, ApiError>(error),
            None => Ok(fetch_plan_of(request)),
        },
{
    match request {
        MessageFetchType::BulkFromChatroom(bulk) => {
            if bulk.count == 0 || bulk.count > MAX_MESSAGES_PER_REQUEST {
                Err(ApiError::PayloadTooLarge)
            } else if !lists_room(joined, bulk.chatroom_uid) {
                Err(ApiError::Unauthorized)
            } else {
                Ok(
                    FetchPlan::Page {
                        chatroom_uid: bulk.chatroom_uid,
                        before_id: bulk.offset_id,
                        limit: bulk.count,
                    },
                )
            }
        },
        MessageFetchType::SingluarFromId(message_id) => Ok(FetchPlan::One { message_id }),
    }
}

impl MessageEntry {
    /// The message as a client is answered with it.
    pub open spec fn response(self) -> ChatroomMessageResponse {
        ChatroomMessageResponse {
            message_id: self.id,
            message_owner_id: self.owner_user_id,
            replying_to_msg_id: self.replying_to_msg,
            sent_to: self.parent_chatroom_id,
            raw_message: self.raw_message,
            date_issued: self.send_date,
        }
    }

    pub fn into_response(self) -> (made: ChatroomMessageResponse)
        ensures
            made == self.response(),
    {
        ChatroomMessageResponse {
            message_id: self.id,
            message_owner_id: self.owner_user_id,
            replying_to_msg_id: self.replying_to_msg,
            sent_to: self.parent_chatroom_id,
            raw_message: self.raw_message,
            date_issued: self.send_date,
        }
    }
}

/// The messages of one page as a client is answered with them, in the order
/// in which the store gave them.
pub fn page_responses(entries: Vec<MessageEntry>) -> (responses: Vec<ChatroomMessageResponse>)
    ensures
        responses@ == entries@.map_values(|entry: MessageEntry| entry.response()),
{
    let ghost all = entries@;
    let mut entries = entries;
    let mut reversed: Vec<ChatroomMessageResponse> = Vec::new();
    while entries.len() > 0
        invariant
            entries@.len() <= all.len(),
            entries@ == all.take(entries@.len() as int),
            reversed@.len() == all.len() - entries@.len(),
            forall|k: int|
                0 <= k < reversed@.len() ==> reversed@[k] == all[all.len() - 1 - k].response(),
        decreases entries.len(),
    {
        let ghost before = entries@;
        let entry = entries.pop().unwrap();
        assert(entries@ =~= all.take(entries@.len() as int));
        assert(entry == all[entries@.len() as int]);
        reversed.push(entry.into_response());
    }
    let mut responses: Vec<ChatroomMessageResponse> = Vec::new();
    while reversed.len() > 0
        invariant
            reversed@.len() <= all.len(),
            responses@.len() == all.len() - reversed@.len(),
            forall|k: int|
                0 <= k < reversed@.len() ==> reversed@[k] == all[all.len() - 1 - k].response(),
            forall|k: int| 0 <= k < responses@.len() ==> responses@[k] == all[k].response(),
        decreases reversed.len(),
    {
        let response = reversed.pop().unwrap();
        responses.push(response);
    }
    assert(responses@ =~= all.map_values(|entry: MessageEntry| entry.response()));
    responses
}

/// Answers a request for one message that the store has found: the user must
/// have joined the chatroom that the message belongs to.
pub fn release_message(message: MessageEntry, joined: &Vec<Option<i32>>) -> (released: Result<
    Vec<ChatroomMessageResponse>,
    ApiError,
>)
    ensures
        released is Ok == joined@.contains(Some(message.parent_chatroom_id)),
        released matches Ok(responses) ==> responses@ == seq![message.response()],
        released matches Err(error) ==> error == ApiError::Unauthorized,
{
    if lists_room(joined, message.parent_chatroom_id) {
        let mut responses: Vec<ChatroomMessageResponse> = Vec::new();
        responses.push(message.into_response());
        assert(responses@ =~= seq![message.response()]);
        Ok(responses)
    } else {
        Err(ApiError::Unauthorized)
    }
}

impl ChatroomEntry {
    /// The chatroom as a client is answered with it; the password stays with
    /// the store.
    pub open spec fn response(self) -> FetchChatroomResponse {
        FetchChatroomResponse {
            chatroom_uid: self.id,
            chatroom_id: self.chatroom_id,
            chatroom_name: self.chatroom_name,
            participants: self.participants,
            is_direct_message: self.is_direct_message,
            last_message_id: self.last_message_id,
        }
    }

    pub fn into_response(self) -> (made: FetchChatroomResponse)
        ensures
            made == self.response(),
    {
        FetchChatroomResponse {
            chatroom_uid: self.id,
            chatroom_id: self.chatroom_id,
            chatroom_name: self.chatroom_name,
            participants: self.participants,
            is_direct_message: self.is_direct_message,
            last_message_id: self.last_message_id,
        }
    }

    /// Puts `user_id` at the end of the participants, also where it is among
    /// them already.
    pub fn add_participant(&mut self, user_id: i32)
        ensures
            *final(self) == (ChatroomEntry {
                participants: final(self).participants,
                ..*old(self)
            }),
            final(self).participants@ == old(self).participants@.push(Some(user_id)),
    {
        self.participants.push(Some(user_id));
    }
}

/// Answers a request for chatrooms that the user says it has joined, from the
/// chatrooms as the store holds them, in their order. One chatroom that does
/// not list the user forbids the whole request.
pub fn known_chatrooms(entries: Vec<ChatroomEntry>, user_id: i32) -> (answer: Result<
    FetchKnownChatroomResponse,
    ApiError,
>)
    ensures
        answer is Ok == (forall|i: int|
            0 <= i < entries.len() ==> (#[trigger] entries[i]).participants@.contains(
                Some(user_id),
            )),
        answer matches Ok(response) ==> response.chatrooms@ == entries@.map_values(
            |entry: ChatroomEntry| entry.response(),
        ),
        answer matches Err(error) ==> error == ApiError::Forbidden,
{
    let ghost all = entries@;
    let mut rest = entries;
    let mut reversed: Vec<FetchChatroomResponse> = Vec::new();
    while rest.len() > 0
        invariant
            all == entries@,
            rest@.len() <= all.len(),
            rest@ == all.take(rest@.len() as int),
            reversed@.len() == all.len() - rest@.len(),
            forall|k: int|
                0 <= k < reversed@.len() ==> reversed@[k] == all[all.len() - 1 - k].response(),
            forall|k: int|
                rest@.len() <= k < all.len() ==> (#[trigger] all[k]).participants@.contains(
                    Some(user_id),
                ),
        decreases rest.len(),
    {
        let entry = rest.pop().unwrap();
        assert(rest@ =~= all.take(rest@.len() as int));
        assert(entry == all[rest@.len() as int]);
        if !lists_room(&entry.participants, user_id) {
            assert(!entries[rest@.len() as int].participants@.contains(Some(user_id)));
            return Err(ApiError::Forbidden);
        }
        reversed.push(entry.into_response());
    }
    let mut chatrooms: Vec<FetchChatroomResponse> = Vec::new();
    while reversed.len() > 0
        invariant
            reversed@.len() <= all.len(),
            chatrooms@.len() == all.len() - reversed@.len(),
            forall|k: int|
                0 <= k < reversed@.len() ==> reversed@[k] == all[all.len() - 1 - k].response(),
            forall|k: int| 0 <= k < chatrooms@.len() ==> chatrooms@[k] == all[k].response(),
        decreases reversed.len(),
    {
        let response = reversed.pop().unwrap();
        chatrooms.push(response);
    }
    assert(chatrooms@ =~= all.map_values(|entry: ChatroomEntry| entry.response()));
    Ok(FetchKnownChatroomResponse { chatrooms })
}

/// A chatroom that the store is asked to make.
#[derive(Debug, Clone)]
pub struct NewChatroom {
    pub chatroom_id: String,
    pub chatroom_name: String,
    pub chatroom_password: Option<String>,
    pub participants: Vec<i32>,
    pub is_direct_message: bool,
    pub last_message_id: Option<i32>,
}

/// The chatroom that `request` asks for, under the public id `generated_id`:
/// its maker is its only participant, it is no direct message and has no
/// message yet.
pub fn new_chatroom(request: CreateChatroomRequest, generated_id: String) -> (made: NewChatroom)
    ensures
        made.chatroom_id == generated_id,
        made.chatroom_name == request.chatroom_name,
        made.chatroom_password == request.chatroom_passw,
        made.participants@ == seq![request.user_session.user_id],
        !made.is_direct_message,
        made.last_message_id is None,
{
    let mut participants: Vec<i32> = Vec::new();
    participants.push(request.user_session.user_id);
    assert(participants@ =~= seq![request.user_session.user_id]);
    NewChatroom {
        chatroom_id: generated_id,
        chatroom_name: request.chatroom_name,
        chatroom_password: request.chatroom_passw,
        participants,
        is_direct_message: false,
        last_message_id: None,
    }
}

/// How a fresh session token gets into the store.
#[derive(Clone, Copy, Debug, PartialEq, Eq, Structural)]
pub enum SessionWrite {
    /// The user has a session: its token is replaced.
    Update,
    /// The user has none: one is made.
    Insert,
}

/// How the token of a login is stored, given how many sessions the store
/// holds for the user.
pub fn session_write(existing_sessions: i64) -> (write: SessionWrite)
    ensures
        write == if existing_sessions != 0 {
            SessionWrite::Update
        } else {
            SessionWrite::Insert
        },
{
    if existing_sessions != 0 {
        SessionWrite::Update
    } else {
        SessionWrite::Insert
    }
}

/// Whether a name may be registered, given how many accounts bear it.
pub fn check_name_free(accounts_with_name: i64) -> (checked: Result<(), ApiError>)
    ensures
        checked == if accounts_with_name != 0 {
            Err::<(), ApiError>(ApiError::Found)
        } else {
            Ok(())
        },
{
    if accounts_with_name != 0 {
        Err(ApiError::Found)
    } else {
        Ok(())
    }
}

/// An account as the store keeps it.
#[derive(Debug, Clone)]
pub struct UserAccountEntry {
    pub id: i32,
    pub username: String,
    pub passw: String,
    pub email: String,
    pub chatrooms_joined: Vec<Option<i32>>,
}

impl UserAccountEntry {
    /// What a client is told of its own account.
    pub fn into_information(self) -> (information: UserInformation)
        ensures
            information == (UserInformation {
                username: self.username,
                chatrooms_joined: self.chatrooms_joined,
                user_id: self.id,
            }),
    {
        UserInformation {
            username: self.username,
            chatrooms_joined: self.chatrooms_joined,
            user_id: self.id,
        }
    }

    /// The answer to a login or a registration: the account, and a session
    /// of the account under `session_token`.
    pub fn into_login(self, session_token: [u8; 32]) -> (response: LoginResponse)
        ensures
            response == (LoginResponse {
                user_information: UserInformation {
                    username: self.username,
                    chatrooms_joined: self.chatrooms_joined,
                    user_id: self.id,
                },
                user_session: UserSession { user_id: self.id, session_token },
            }),
    {
        let user_id = self.id;
        LoginResponse {
            user_information: self.into_information(),
            user_session: UserSession { user_id, session_token },
        }
    }
}

/// The answer to a login or a registration of `account`, with a session under
/// a fresh random token.
pub fn issue_login(account: UserAccountEntry) -> (response: LoginResponse)
    ensures
        response.user_information == (UserInformation {
            username: account.username,
            chatrooms_joined: account.chatrooms_joined,
            user_id: account.id,
        }),
        response.user_session.user_id == account.id,
{
    account.into_login(generate_random_secure_key())
}

/// A message that the store is asked to keep.
#[derive(Debug, Clone)]
pub struct NewMessage {
    pub parent_chatroom_id: i32,
    pub owner_user_id: i32,
    pub send_date: Timestamp,
    pub replying_to_msg: Option<i32>,
    pub raw_message: Vec<u8>,
}

/// The record for `request`, sent at `now`, with `raw_message` as the encoded
/// payload.
pub fn new_message(request: &PersistRequest, raw_message: Vec<u8>, now: Timestamp) -> (made:
    NewMessage)
    ensures
        made == (NewMessage {
            parent_chatroom_id: request.room_id,
            owner_user_id: request.sender.user_id,
            send_date: now,
            replying_to_msg: request.reply_to,
            raw_message,
        }),
{
    NewMessage {
        parent_chatroom_id: request.room_id,
        owner_user_id: request.sender.user_id,
        send_date: now,
        replying_to_msg: request.reply_to,
        raw_message,
    }
}

/// The record for `request`, sent now by the clock of this machine.
pub fn stamp_message(request: &PersistRequest, raw_message: Vec<u8>) -> (made: NewMessage)
    ensures
        made.send_date.is_valid(),
        made == (NewMessage {
            parent_chatroom_id: request.room_id,
            owner_user_id: request.sender.user_id,
            send_date: made.send_date,
            replying_to_msg: request.reply_to,
            raw_message,
        }),
{
    new_message(request, raw_message, Timestamp::now())
}

/// The chatroom that `request` asks for, under a fresh public id.
pub fn fresh_chatroom(request: CreateChatroomRequest) -> (made: NewChatroom)
    ensures
        made.chatroom_id@.len() == CHATROOM_ID_LENGTH,
        forall|i: int|
            0 <= i < made.chatroom_id@.len() ==> is_id_char(#[trigger] made.chatroom_id@[i]),
        made.chatroom_name == request.chatroom_name,
        made.chatroom_password == request.chatroom_passw,
        made.participants@ == seq![request.user_session.user_id],
        !made.is_direct_message,
        made.last_message_id is None,
{
    new_chatroom(request, sample_chatroom_id())
}

/// What a user number in text stands for, as `str::parse` reads an `i32`;
/// none where it reads none.
pub uninterp spec fn parsed_user_id(text: Seq<char>) -> Option<i32>;

/// `str::parse::<i32>`: the number that the text stands for, if it stands
/// for one.
#[verifier::external_body]
fn parse_i32(text: &str) -> (parsed: Option<i32>)
    ensures
        parsed == parsed_user_id(text@),
{
    text.parse::<i32>().ok()
}

/// The user that a lookup names, from what its text was read as: text that is
/// no number is not allowed.
pub fn named_user(parsed: Option<i32>) -> (user_id: Result<i32, ApiError>)
    ensures
        user_id == match parsed {
            Some(id) => Ok::<i32, ApiError>(id),
            None => Err(ApiError::MethodNotAllowed),
        },
{
    match parsed {
        Some(id) => Ok(id),
        None => Err(ApiError::MethodNotAllowed),
    }
}

/// The user that the text of a lookup names.
pub fn read_user_id(text: &str) -> (user_id: Result<i32, ApiError>)
    ensures
        user_id == match parsed_user_id(text@) {
            Some(id) => Ok::<i32, ApiError>(id),
            None => Err(ApiError::MethodNotAllowed),
        },
{
    named_user(parse_i32(text))
}

/// The message that the subscribers get once the store has kept `request`
/// as `stored`: number, sender, room and date are the store's.
pub fn relayed_message(stored: &MessageEntry, request: PersistRequest) -> (relayed:
    WebSocketChatroomMessageClient)
    ensures
        relayed == (WebSocketChatroomMessageClient {
            message_id: stored.id,
            message_owner_id: stored.owner_user_id,
            replying_to_msg_id: stored.replying_to_msg,
            sent_to: stored.parent_chatroom_id,
            message: request.payload,
            date_issued: stored.send_date,
        }),
{
    WebSocketChatroomMessageClient {
        message_id: stored.id,
        message_owner_id: stored.owner_user_id,
        replying_to_msg_id: stored.replying_to_msg,
        sent_to: stored.parent_chatroom_id,
        message: request.payload,
        date_issued: stored.send_date,
    }
}

} // verus!
