use crate::protocol::ChatroomMessageResponse;
use crate::protocol::CreateChatroomRequest;
use crate::protocol::FetchKnownChatrooms;
use crate::protocol::FetchUnknownChatroom;
use crate::protocol::MessageFetchType;
use crate::protocol::Timestamp;
use crate::protocol::UserSession;
use crate::protocol::WebSocketChatroomMessages;
use vstd::prelude::*;

verus! {

pub struct LoginRequest {
    pub username: String,
    pub password: String,
}

#[derive(Debug)]
pub struct RegisterRequest {
    pub username: String,
    pub password: String,
    pub email: String,
}

#[derive(Debug, Clone)]
pub struct UserInformation {
    pub username: String,
    pub chatrooms_joined: Vec<Option<i32>>,
    pub user_id: i32,
}

/// A message as a client gets it: stored, numbered and decoded.
#[derive(Debug, Clone)]
pub struct WebSocketChatroomMessageClient {
    /// The number that the store gave the message.
    pub message_id: i32,
    /// The user who sent the message.
    pub message_owner_id: i32,
    /// The message that this one replies to.
    pub replying_to_msg_id: Option<i32>,
    /// The chatroom that the message was sent to.
    pub sent_to: i32,
    pub message: WebSocketChatroomMessages,
    pub date_issued: Timestamp,
}

impl WebSocketChatroomMessageClient {
    pub fn new(
        message_id: i32,
        message_owner_id: i32,
        replying_to_msg_id: Option<i32>,
        sent_to: i32,
        message: WebSocketChatroomMessages,
        date_issued: Timestamp,
    ) -> (made: Self)
        ensures
            made == (WebSocketChatroomMessageClient {
                message_id,
                message_owner_id,
                replying_to_msg_id,
                sent_to,
                message,
                date_issued,
            }),
    {
        Self { message_id, message_owner_id, replying_to_msg_id, sent_to, message, date_issued }
    }
}

impl ChatroomMessageResponse {
    /// The stored message as a client gets it, with `message` as what
    /// `raw_message` decodes to.
    pub fn into_client(self, message: WebSocketChatroomMessages) -> (made:
        WebSocketChatroomMessageClient)
        ensures
            made == (WebSocketChatroomMessageClient {
                message_id: self.message_id,
                message_owner_id: self.message_owner_id,
                replying_to_msg_id: self.replying_to_msg_id,
                sent_to: self.sent_to,
                message,
                date_issued: self.date_issued,
            }),
    {
        WebSocketChatroomMessageClient {
            message_id: self.message_id,
            message_owner_id: self.message_owner_id,
            replying_to_msg_id: self.replying_to_msg_id,
            sent_to: self.sent_to,
            message,
            date_issued: self.date_issued,
        }
    }
}

#[derive(Debug, Clone)]
pub struct FetchMessages {
    pub user_session: UserSession,
    pub message_request: MessageFetchType,
}

/// Why the client does not send a request.
#[derive(Clone, Copy, Debug, PartialEq, Eq, Structural)]
pub enum InputError {
    EmptyUsername,
    EmptyPassword,
    EmptyEmail,
}

/// The status code of an answer that went well.
pub const STATUS_OK: u16 = 200;

/// The login of `username` with `password`; neither may be empty, and the
/// name is looked at first.
pub fn login_request(username: String, password: String) -> (request: Result<
    LoginRequest,
    InputError,
>)
    ensures
        request matches Ok(login) ==> login.username == username && login.password == password,
        request is Ok == (username@.len() > 0 && password@.len() > 0),
        request matches Err(error) ==> error == if username@.len() == 0 {
            InputError::EmptyUsername
        } else {
            InputError::EmptyPassword
        },
{
    if username.as_str().is_empty() {
        Err(InputError::EmptyUsername)
    } else if password.as_str().is_empty() {
        Err(InputError::EmptyPassword)
    } else {
        Ok(LoginRequest { username, password })
    }
}

/// The registration of `username` with `password` and `email`; none may be
/// empty, and they are looked at in this order.
pub fn register_request(username: String, password: String, email: String) -> (request: Result<
    RegisterRequest,
    InputError,
>)
    ensures
        request matches Ok(registration) ==> registration.username == username
            && registration.password == password && registration.email == email,
        request is Ok == (username@.len() > 0 && password@.len() > 0 && email@.len() > 0),
        request matches Err(error) ==> error == if username@.len() == 0 {
            InputError::EmptyUsername
        } else if password@.len() == 0 {
            InputError::EmptyPassword
        } else {
            InputError::EmptyEmail
        },
{
    if username.as_str().is_empty() {
        Err(InputError::EmptyUsername)
    } else if password.as_str().is_empty() {
        Err(InputError::EmptyPassword)
    } else if email.as_str().is_empty() {
        Err(InputError::EmptyEmail)
    } else {
        Ok(RegisterRequest { username, password, email })
    }
}

/// Whether the server's answer went well: only the status 200 does, any other
/// code is the error.
pub fn check_status(response_code: u16) -> (checked: Result<(), u16>)
    ensures
        checked == if response_code == STATUS_OK {
            Ok::<(), u16>(())
        } else {
            Err(response_code)
        },
{
    if response_code == STATUS_OK {
        Ok(())
    } else {
        Err(response_code)
    }
}

/// The password that a form field holds: an empty field means none.
pub fn optional_password(field: String) -> (password: Option<String>)
    ensures
        password == if field@.len() == 0 {
            None::<String>
        } else {
            Some(field)
        },
{
    if field.as_str().is_empty() {
        None
    } else {
        Some(field)
    }
}

impl UserSession {
    /// The request to join the chatroom with the public id `chatroom_id`.
    pub fn unknown_chatroom_request(&self, chatroom_id: String, password: Option<String>) -> (request:
        FetchUnknownChatroom)
        ensures
            request == (FetchUnknownChatroom { user_session: *self, chatroom_id, password }),
    {
        FetchUnknownChatroom { user_session: *self, chatroom_id, password }
    }

    /// The request for the chatrooms `chatroom_uids`, which the user has
    /// joined.
    pub fn known_chatrooms_request(&self, chatroom_uids: Vec<i32>) -> (request: FetchKnownChatrooms)
        ensures
            request == (FetchKnownChatrooms { user_session: *self, chatroom_uids }),
    {
        FetchKnownChatrooms { user_session: *self, chatroom_uids }
    }

    /// The request to make a chatroom.
    pub fn create_chatroom_request(&self, chatroom_name: String, chatroom_passw: Option<String>) -> (request:
        CreateChatroomRequest)
        ensures
            request == (CreateChatroomRequest { user_session: *self, chatroom_name, chatroom_passw }),
    {
        CreateChatroomRequest { user_session: *self, chatroom_name, chatroom_passw }
    }

    /// The request for messages.
    pub fn messages_request(&self, message_request: MessageFetchType) -> (request: FetchMessages)
        ensures
            request == (FetchMessages { user_session: *self, message_request }),
    {
        FetchMessages { user_session: *self, message_request }
    }
}

} // verus!
