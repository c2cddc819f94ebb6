use tokio::sync::mpsc::channel;
use tokio::sync::mpsc::Receiver;
use whatssock::client::WebSocketChatroomMessageClient;
use whatssock::connections::RemoteAddr;
use whatssock::outbound::Outbox;
use whatssock::protocol::Timestamp;
use whatssock::protocol::UserSession;
use whatssock::protocol::WebSocketChatroomMessages;
use whatssock::relay::rooms_to_join;
use whatssock::relay::Connection;
use whatssock::relay::Frame;
use whatssock::relay::Relay;
use whatssock::relay::RelayError;
use whatssock::relay::Severity;
use whatssock::relay::StoreReply;
use whatssock::server::WebSocketChatroomMessageServer;

fn session(user_id: i32) -> UserSession {
    UserSession { user_id, session_token: [user_id as u8; 32] }
}

fn addr(last: u128, port: u16) -> RemoteAddr {
    RemoteAddr { ip: last, port }
}

fn stored(id: i32, owner: i32, room: i32, frame: Vec<u8>) -> StoreReply {
    StoreReply::Stored {
        message: WebSocketChatroomMessageClient::new(
            id,
            owner,
            None,
            room,
            WebSocketChatroomMessages::StringMessage(String::from("hello")),
            Timestamp { secs: 1_700_000_000, nanos: 0 },
        ),
        frame,
    }
}

fn connect(
    relay: &mut Relay,
    user_id: i32,
    address: RemoteAddr,
    connection: u64,
    joined: Vec<i32>,
    capacity: usize,
) -> (Connection, Receiver<Vec<u8>>) {
    let (tx, rx) = channel::<Vec<u8>>(capacity);
    let accepted = relay.accept(
        address,
        Frame::Credential(session(user_id)),
        true,
        &joined,
        Outbox::new(connection, tx),
    );
    match accepted {
        Ok(conn) => (conn, rx),
        Err(error) => panic!("the connection was refused: {:?}", error),
    }
}

#[test]
fn a_member_gets_what_another_member_publishes() {
    let mut relay = Relay::new(true);
    let (_x, mut rx_x) = connect(&mut relay, 1, addr(1, 4000), 10, vec![7], 8);
    assert_eq!(relay.connection_of(7, 1), Some(10));
    let (y, mut rx_y) = connect(&mut relay, 2, addr(2, 4000), 20, vec![7], 8);
    let report = relay.dispatch(&y, stored(1, 2, 7, vec![0xAA, 0xBB])).unwrap();
    let mut delivered = report.delivered.clone();
    delivered.sort();
    assert_eq!(delivered, vec![1, 2]);
    assert!(report.pruned.is_empty());
    assert_eq!(rx_x.try_recv().unwrap(), vec![0xAA, 0xBB]);
    assert_eq!(rx_y.try_recv().unwrap(), vec![0xAA, 0xBB]);
}

#[test]
fn a_second_connection_from_one_address_is_refused() {
    let mut relay = Relay::new(true);
    let (_x, mut rx_x) = connect(&mut relay, 1, addr(9, 5000), 10, vec![7], 8);
    let (tx_y, _rx_y) = channel::<Vec<u8>>(8);
    let refused = relay.accept(
        addr(9, 5000),
        Frame::Credential(session(2)),
        true,
        &vec![7],
        Outbox::new(20, tx_y),
    );
    assert!(matches!(refused, Err(RelayError::DuplicateConnection)));
    assert!(relay.is_open(addr(9, 5000)));
    assert_eq!(relay.connection_of(7, 1), Some(10));
    assert_eq!(relay.connection_of(7, 2), None);
    let (z, _rx_z) = connect(&mut relay, 3, addr(9, 5001), 30, vec![], 8);
    let report = relay.dispatch(&z, stored(5, 3, 7, vec![1])).unwrap();
    assert!(report.delivered.contains(&1));
    assert_eq!(rx_x.try_recv().unwrap(), vec![1]);
}

#[test]
fn a_room_is_made_again_after_its_last_subscriber_left() {
    let mut relay = Relay::new(true);
    let (x, _rx_x) = connect(&mut relay, 1, addr(1, 1), 10, vec![9], 8);
    assert!(relay.has_hub(9));
    relay.disconnect(&x);
    assert!(!relay.has_hub(9));
    assert!(!relay.is_open(addr(1, 1)));
    let (y, mut rx_y) = connect(&mut relay, 2, addr(2, 2), 20, vec![], 8);
    assert!(!relay.has_hub(9));
    let report = relay.dispatch(&y, stored(1, 2, 9, vec![9, 9])).unwrap();
    assert_eq!(report.delivered, vec![2]);
    assert!(report.pruned.is_empty());
    assert!(relay.has_hub(9));
    assert_eq!(relay.connection_of(9, 2), Some(20));
    assert_eq!(rx_y.try_recv().unwrap(), vec![9, 9]);
}

#[test]
fn a_saturated_queue_does_not_hold_up_the_others() {
    let mut relay = Relay::new(true);
    let (_slow, mut rx_slow) = connect(&mut relay, 1, addr(1, 1), 10, vec![4], 1);
    let (_ok, mut rx_ok) = connect(&mut relay, 2, addr(2, 2), 20, vec![4], 8);
    let (publisher, mut rx_pub) = connect(&mut relay, 3, addr(3, 3), 30, vec![4], 8);
    let first = relay.dispatch(&publisher, stored(1, 3, 4, vec![1])).unwrap();
    assert_eq!(first.delivered.len(), 3);
    let second = relay.dispatch(&publisher, stored(2, 3, 4, vec![2])).unwrap();
    let mut delivered = second.delivered.clone();
    delivered.sort();
    assert_eq!(delivered, vec![2, 3]);
    assert_eq!(second.pruned, vec![1]);
    assert_eq!(relay.connection_of(4, 1), None);
    assert_eq!(relay.connection_of(4, 2), Some(20));
    assert_eq!(rx_ok.try_recv().unwrap(), vec![1]);
    assert_eq!(rx_ok.try_recv().unwrap(), vec![2]);
    assert_eq!(rx_pub.try_recv().unwrap(), vec![1]);
    assert_eq!(rx_pub.try_recv().unwrap(), vec![2]);
    assert_eq!(rx_slow.try_recv().unwrap(), vec![1]);
    assert!(rx_slow.try_recv().is_err());
}

#[test]
fn a_closed_queue_is_pruned_and_an_empty_room_loses_its_hub() {
    let mut relay = Relay::new(false);
    let (gone, rx_gone) = connect(&mut relay, 1, addr(1, 1), 10, vec![5], 8);
    drop(rx_gone);
    let (publisher, mut rx_pub) = connect(&mut relay, 2, addr(2, 2), 20, vec![], 8);
    let report = relay.dispatch(&publisher, stored(1, 2, 5, vec![7])).unwrap();
    assert!(report.delivered.is_empty());
    assert_eq!(report.pruned, vec![1]);
    assert_eq!(relay.connection_of(5, 2), Some(20));
    assert!(rx_pub.try_recv().is_err());
    relay.disconnect(&publisher);
    assert!(!relay.has_hub(5));
    relay.disconnect(&gone);
    assert!(!relay.has_hub(5));
}

#[test]
fn a_first_frame_that_is_no_credential_fails_the_authentication() {
    let mut relay = Relay::new(true);
    let (tx, _rx) = channel::<Vec<u8>>(8);
    let envelope = WebSocketChatroomMessageServer::new(
        session(1),
        None,
        7,
        WebSocketChatroomMessages::StringMessage(String::from("too early")),
        Timestamp { secs: 0, nanos: 0 },
    );
    let refused =
        relay.accept(addr(1, 1), Frame::Envelope(envelope), true, &vec![7], Outbox::new(1, tx));
    assert!(matches!(refused, Err(RelayError::AuthenticationFailed)));
    assert!(!relay.is_open(addr(1, 1)));
    assert!(!relay.has_hub(7));
    let (tx, _rx) = channel::<Vec<u8>>(8);
    let refused = relay.accept(addr(1, 1), Frame::Undecodable, true, &vec![7], Outbox::new(1, tx));
    assert!(matches!(refused, Err(RelayError::AuthenticationFailed)));
    let (tx, _rx) = channel::<Vec<u8>>(8);
    let refused = relay.accept(
        addr(1, 1),
        Frame::Credential(session(1)),
        false,
        &vec![7],
        Outbox::new(1, tx),
    );
    assert!(matches!(refused, Err(RelayError::AuthenticationFailed)));
    assert!(!relay.is_open(addr(1, 1)));
    assert!(!relay.has_hub(7));
}

#[test]
fn a_rejected_message_is_not_fanned_out() {
    let mut relay = Relay::new(true);
    let (x, mut rx_x) = connect(&mut relay, 1, addr(1, 1), 10, vec![7], 8);
    let rejected = relay.dispatch(&x, StoreReply::Rejected);
    assert!(matches!(rejected, Err(RelayError::PersistenceRejected)));
    assert!(rx_x.try_recv().is_err());
    assert_eq!(relay.connection_of(7, 1), Some(10));
    assert!(relay.is_open(addr(1, 1)));
}

#[test]
fn frames_reach_a_subscriber_in_the_order_of_their_publishing() {
    let mut relay = Relay::new(true);
    let (_x, mut rx_x) = connect(&mut relay, 1, addr(1, 1), 10, vec![7, 8], 16);
    let (y, _rx_y) = connect(&mut relay, 2, addr(2, 2), 20, vec![7, 8], 16);
    for n in 0..5u8 {
        relay.dispatch(&y, stored(n as i32, 2, 7, vec![n])).unwrap();
    }
    for n in 0..5u8 {
        assert_eq!(rx_x.try_recv().unwrap(), vec![n]);
    }
}

#[test]
fn ending_a_connection_twice_changes_nothing_more() {
    let mut relay = Relay::new(true);
    let (x, _rx_x) = connect(&mut relay, 1, addr(1, 1), 10, vec![1, 2], 8);
    let (_y, _rx_y) = connect(&mut relay, 2, addr(2, 2), 20, vec![2], 8);
    relay.disconnect(&x);
    assert!(!relay.has_hub(1));
    assert!(relay.has_hub(2));
    assert_eq!(relay.connection_of(2, 2), Some(20));
    relay.disconnect(&x);
    assert!(!relay.has_hub(1));
    assert!(relay.has_hub(2));
    assert_eq!(relay.connection_of(2, 2), Some(20));
    assert!(relay.is_open(addr(2, 2)));
    assert!(!relay.is_open(addr(1, 1)));
}

#[test]
fn without_echo_the_publisher_is_left_out_but_stays_subscribed() {
    let mut relay = Relay::new(false);
    let (x, mut rx_x) = connect(&mut relay, 1, addr(1, 1), 10, vec![7], 8);
    let (_y, mut rx_y) = connect(&mut relay, 2, addr(2, 2), 20, vec![7], 8);
    let report = relay.dispatch(&x, stored(1, 1, 7, vec![3])).unwrap();
    assert_eq!(report.delivered, vec![2]);
    assert!(rx_x.try_recv().is_err());
    assert_eq!(rx_y.try_recv().unwrap(), vec![3]);
    assert_eq!(relay.connection_of(7, 1), Some(10));
}

#[test]
fn the_sender_is_the_connection_not_the_envelope() {
    let mut relay = Relay::new(true);
    let (x, _rx) = connect(&mut relay, 1, addr(1, 1), 10, vec![], 8);
    let envelope = WebSocketChatroomMessageServer::new(
        session(99),
        Some(4),
        7,
        WebSocketChatroomMessages::StringMessage(String::from("hi")),
        Timestamp { secs: 0, nanos: 0 },
    );
    let request = x.route(envelope);
    assert_eq!(request.sender, session(1));
    assert_eq!(request.room_id, 7);
    assert_eq!(request.reply_to, Some(4));
    assert_eq!(x.user_id(), 1);
    assert_eq!(x.connection_id(), 10);
    assert_eq!(x.remote_address(), addr(1, 1));
}

#[test]
fn errors_are_sorted_by_how_far_they_reach() {
    assert_eq!(RelayError::DuplicateConnection.severity(), Severity::ConnectionFatal);
    assert_eq!(RelayError::AuthenticationFailed.severity(), Severity::ConnectionFatal);
    assert_eq!(RelayError::MalformedFrame.severity(), Severity::ConnectionFatal);
    assert_eq!(RelayError::PersistenceRejected.severity(), Severity::MessageFatal);
    assert_eq!(RelayError::SubscriberUnreachable.severity(), Severity::SubscriberFatal);
    assert!(RelayError::MalformedFrame.closes_connection());
    assert!(!RelayError::PersistenceRejected.closes_connection());
    assert!(!RelayError::SubscriberUnreachable.is_surfaced());
    assert!(RelayError::DuplicateConnection.is_surfaced());
}

#[test]
fn a_handshake_that_ends_early_gives_the_address_back() {
    let mut relay = Relay::new(true);
    assert!(relay.reserve(addr(1, 1)).is_ok());
    assert_eq!(relay.reserve(addr(1, 1)), Err(RelayError::DuplicateConnection));
    assert!(relay.release(addr(1, 1)));
    assert!(!relay.release(addr(1, 1)));
    assert!(relay.reserve(addr(1, 1)).is_ok());
    let (tx, _rx) = channel::<Vec<u8>>(8);
    let enrolled = relay.enroll(addr(1, 1), session(1), true, &vec![3, 4, 3], Outbox::new(5, tx));
    assert!(enrolled.is_ok());
    assert_eq!(relay.connection_of(3, 1), Some(5));
    assert_eq!(relay.connection_of(4, 1), Some(5));
    assert!(relay.is_open(addr(1, 1)));
    assert!(relay.reserve(addr(2, 2)).is_ok());
    let (tx, _rx) = channel::<Vec<u8>>(8);
    let refused = relay.enroll(addr(2, 2), session(2), false, &vec![3], Outbox::new(6, tx));
    assert!(matches!(refused, Err(RelayError::AuthenticationFailed)));
    assert!(!relay.is_open(addr(2, 2)));
    assert_eq!(relay.connection_of(3, 2), None);
}

#[test]
fn a_failed_lookup_of_the_joined_rooms_lets_the_client_in_without_rooms() {
    assert_eq!(rooms_to_join(None), Some(vec![]));
    assert_eq!(rooms_to_join(Some(vec![])), Some(vec![]));
    assert_eq!(rooms_to_join(Some(vec![Some(7), Some(9), Some(7)])), Some(vec![7, 9, 7]));
    assert_eq!(rooms_to_join(Some(vec![Some(7), None])), None);
    assert_eq!(rooms_to_join(Some(vec![None])), None);
}
