use crate::client::UserInformation;
use crate::protocol::Timestamp;
use crate::protocol::UserSession;
use crate::protocol::WebSocketChatroomMessages;
use vstd::prelude::*;

verus! {

#[derive(Debug, Clone)]
pub struct LoginResponse {
    pub user_information: UserInformation,
    pub user_session: UserSession,
}

#[derive(Debug)]
pub struct LogoutResponse {
}

/// A message as a client submits it.
#[derive(Debug, Clone)]
pub struct WebSocketChatroomMessageServer {
    /// The session of the user who sends the message, as the client claims
    /// it.
    pub message_owner_session: UserSession,
    /// The message that this one replies to.
    pub replying_to_msg_id: Option<i32>,
    /// The chatroom that the message is sent to.
    pub sent_to: i32,
    pub message: WebSocketChatroomMessages,
    /// The client's own clock; the store sets the date that counts.
    pub date_issued: Timestamp,
}

impl WebSocketChatroomMessageServer {
    pub fn new(
        message_owner_session: UserSession,
        replying_to_msg_id: Option<i32>,
        sent_to: i32,
        message: WebSocketChatroomMessages,
        date_issued: Timestamp,
    ) -> (made: Self)
        ensures
            made == (WebSocketChatroomMessageServer {
                message_owner_session,
                replying_to_msg_id,
                sent_to,
                message,
                date_issued,
            }),
    {
        Self { message_owner_session, replying_to_msg_id, sent_to, message, date_issued }
    }
}

} // verus!
