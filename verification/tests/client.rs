use std::collections::HashMap;
use whatssock::cache::get_or_request_message_from_id;
use whatssock::cache::get_or_request_user_information;
use whatssock::cache::Cached;
use whatssock::cache::MessageCache;
use whatssock::client::check_status;
use whatssock::client::login_request;
use whatssock::client::optional_password;
use whatssock::client::register_request;
use whatssock::client::InputError;
use whatssock::client::WebSocketChatroomMessageClient;
use whatssock::link::on_link_event;
use whatssock::link::LinkAction;
use whatssock::link::LinkEvent;
use whatssock::link::LinkState;
use whatssock::protocol::BulkChatroomMsgRequest;
use whatssock::protocol::ChatroomMessageResponse;
use whatssock::protocol::MessageFetchType;
use whatssock::protocol::Timestamp;
use whatssock::protocol::UserLookup;
use whatssock::protocol::UserSession;
use whatssock::protocol::WebSocketChatroomMessages;
use whatssock::server::WebSocketChatroomMessageServer;

fn text(s: &str) -> String {
    String::from(s)
}

fn message(id: i32, room: i32) -> WebSocketChatroomMessageClient {
    WebSocketChatroomMessageClient::new(
        id,
        1,
        None,
        room,
        WebSocketChatroomMessages::StringMessage(format!("m{id}")),
        Timestamp { secs: id as i64, nanos: 0 },
    )
}

fn ids(request: Option<MessageFetchType>) -> Option<(i32, i32, i32)> {
    match request {
        Some(MessageFetchType::BulkFromChatroom(BulkChatroomMsgRequest {
            chatroom_uid,
            count,
            offset_id,
        })) => Some((chatroom_uid, count, offset_id)),
        _ => None,
    }
}

#[test]
fn a_login_needs_a_name_and_a_password() {
    let ok = login_request(text("ann"), text("pw")).ok().unwrap();
    assert_eq!(ok.username, "ann");
    assert_eq!(ok.password, "pw");
    assert_eq!(login_request(text(""), text("pw")).err(), Some(InputError::EmptyUsername));
    assert_eq!(login_request(text("ann"), text("")).err(), Some(InputError::EmptyPassword));
    assert_eq!(login_request(text(""), text("")).err(), Some(InputError::EmptyUsername));
}

#[test]
fn a_registration_needs_a_name_a_password_and_an_address() {
    let ok = register_request(text("ann"), text("pw"), text("a@b.c")).ok().unwrap();
    assert_eq!((ok.username.as_str(), ok.password.as_str(), ok.email.as_str()), ("ann", "pw", "a@b.c"));
    assert_eq!(
        register_request(text(""), text(""), text("")).err(),
        Some(InputError::EmptyUsername)
    );
    assert_eq!(
        register_request(text("ann"), text(""), text("")).err(),
        Some(InputError::EmptyPassword)
    );
    assert_eq!(
        register_request(text("ann"), text("pw"), text("")).err(),
        Some(InputError::EmptyEmail)
    );
}

#[test]
fn only_status_200_is_well() {
    assert_eq!(check_status(200), Ok(()));
    assert_eq!(check_status(201), Err(201));
    assert_eq!(check_status(403), Err(403));
    assert_eq!(check_status(0), Err(0));
}

#[test]
fn an_empty_password_field_means_no_password() {
    assert_eq!(optional_password(text("")), None);
    assert_eq!(optional_password(text(" ")), Some(text(" ")));
    assert_eq!(optional_password(text("pw")), Some(text("pw")));
}

#[test]
fn requests_carry_the_session() {
    let session = UserSession { user_id: 4, session_token: [2; 32] };
    let unknown = session.unknown_chatroom_request(text("abc"), Some(text("pw")));
    assert_eq!(unknown.user_session, session);
    assert_eq!(unknown.chatroom_id, "abc");
    assert_eq!(unknown.password, Some(text("pw")));
    let known = session.known_chatrooms_request(vec![1, 2]);
    assert_eq!(known.user_session, session);
    assert_eq!(known.chatroom_uids, vec![1, 2]);
    let create = session.create_chatroom_request(text("room"), None);
    assert_eq!(create.user_session, session);
    assert_eq!(create.chatroom_name, "room");
    assert_eq!(create.chatroom_passw, None);
    let fetch = session.messages_request(MessageFetchType::SingluarFromId(9));
    assert_eq!(fetch.user_session, session);
    assert!(matches!(fetch.message_request, MessageFetchType::SingluarFromId(9)));
    assert_eq!(UserSession::default(), UserSession { user_id: 0, session_token: [0; 32] });
}

#[test]
fn a_cache_miss_names_what_to_ask_for() {
    let mut users: HashMap<i32, UserLookup> = HashMap::new();
    users.insert(1, UserLookup { username: text("ann") });
    assert!(matches!(get_or_request_user_information(&users, 1), Cached::Hit(u) if u.username == "ann"));
    assert!(matches!(get_or_request_user_information(&users, 2), Cached::Miss(2)));
    let mut messages: HashMap<i32, ChatroomMessageResponse> = HashMap::new();
    messages.insert(
        8,
        ChatroomMessageResponse {
            message_id: 8,
            message_owner_id: 1,
            replying_to_msg_id: None,
            sent_to: 3,
            raw_message: vec![1],
            date_issued: Timestamp { secs: 0, nanos: 0 },
        },
    );
    assert!(matches!(get_or_request_message_from_id(&messages, 8), Cached::Hit(m) if m.sent_to == 3));
    assert!(matches!(
        get_or_request_message_from_id(&messages, 9),
        Cached::Miss(MessageFetchType::SingluarFromId(9))
    ));
}

#[test]
fn the_message_cache_files_messages_by_chatroom() {
    let mut cache = MessageCache::new();
    assert_eq!(ids(cache.previous_page(3)), None);
    assert!(!cache.on_incoming(message(1, 3)));
    cache.open_room(3);
    assert_eq!(ids(cache.previous_page(3)), Some((3, 10, 0)));
    assert!(cache.on_incoming(message(20, 3)));
    assert!(cache.on_incoming(message(21, 3)));
    assert_eq!(ids(cache.previous_page(3)), Some((3, 10, 20)));
    cache.on_page(3, vec![message(19, 3), message(18, 3), message(17, 3)]);
    assert_eq!(ids(cache.previous_page(3)), Some((3, 10, 17)));
    let held: Vec<i32> = cache.list(3).unwrap().iter().map(|m| m.message_id).collect();
    assert_eq!(held, vec![17, 18, 19, 20, 21]);
    assert!(cache.list(4).is_none());
    cache.on_page(3, vec![]);
    assert_eq!(ids(cache.previous_page(3)), Some((3, 10, 17)));
    cache.open_room(3);
    assert_eq!(ids(cache.previous_page(3)), Some((3, 10, 0)));
}

#[test]
fn a_stored_message_becomes_a_client_message() {
    let stored = ChatroomMessageResponse {
        message_id: 8,
        message_owner_id: 1,
        replying_to_msg_id: Some(2),
        sent_to: 3,
        raw_message: vec![1],
        date_issued: Timestamp { secs: 6, nanos: 7 },
    };
    let made = stored.into_client(WebSocketChatroomMessages::StringMessage(text("hi")));
    assert_eq!(made.message_id, 8);
    assert_eq!(made.message_owner_id, 1);
    assert_eq!(made.replying_to_msg_id, Some(2));
    assert_eq!(made.sent_to, 3);
    assert_eq!(made.date_issued, Timestamp { secs: 6, nanos: 7 });
    assert!(matches!(made.message, WebSocketChatroomMessages::StringMessage(ref s) if s == "hi"));
}

#[test]
fn the_link_sends_the_credential_first_and_retries_after_ten_seconds() {
    let session = UserSession { user_id: 4, session_token: [2; 32] };
    let outgoing = WebSocketChatroomMessageServer::new(
        session,
        None,
        3,
        WebSocketChatroomMessages::StringMessage(text("hi")),
        Timestamp { secs: 0, nanos: 0 },
    );
    let (state, action) = on_link_event(LinkState::Connecting, session, LinkEvent::ConnectFailed);
    assert_eq!(state, LinkState::Connecting);
    assert!(matches!(action, LinkAction::RetryAfter(10)));
    let (state, action) = on_link_event(LinkState::Connecting, session, LinkEvent::ConnectSucceeded);
    assert_eq!(state, LinkState::Connected);
    assert!(matches!(action, LinkAction::SendCredential(s) if s == session));
    let (state, action) =
        on_link_event(LinkState::Connecting, session, LinkEvent::Outgoing(outgoing.clone()));
    assert_eq!(state, LinkState::Connecting);
    assert!(matches!(action, LinkAction::Ignore));
    let (state, action) = on_link_event(LinkState::Connected, session, LinkEvent::Outgoing(outgoing));
    assert_eq!(state, LinkState::Connected);
    assert!(matches!(action, LinkAction::Send(m) if m.sent_to == 3));
    let (state, action) = on_link_event(LinkState::Connected, session, LinkEvent::Incoming(vec![1]));
    assert_eq!(state, LinkState::Connected);
    assert!(matches!(action, LinkAction::Forward(f) if f == vec![1]));
    let (state, action) = on_link_event(LinkState::Connected, session, LinkEvent::IncomingFailed);
    assert_eq!(state, LinkState::Connected);
    assert!(matches!(action, LinkAction::Report));
    let (state, action) = on_link_event(LinkState::Connected, session, LinkEvent::OutgoingClosed);
    assert_eq!(state, LinkState::Connecting);
    assert!(matches!(action, LinkAction::Reconnect));
    let (state, action) = on_link_event(LinkState::Connected, session, LinkEvent::ConnectFailed);
    assert_eq!(state, LinkState::Connected);
    assert!(matches!(action, LinkAction::Ignore));
}
