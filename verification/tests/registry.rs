use tokio::sync::mpsc::channel;
use whatssock::connections::OpenConnections;
use whatssock::connections::RemoteAddr;
use whatssock::delivery::settle;
use whatssock::outbound::Enqueue;
use whatssock::outbound::Outbox;
use whatssock::registry::create_chatroom_handler;
use whatssock::registry::subscribe_to_channel_handler;
use whatssock::hub::Hub;
use whatssock::registry::HubState;
use whatssock::registry::Registry;

#[test]
fn join_makes_the_hub_and_leave_ends_it() {
    let (tx, _rx) = channel::<Vec<u8>>(4);
    let mut registry = Registry::new();
    assert!(!registry.has_hub(7));
    registry.join(7, 11, Outbox::new(1, tx));
    assert!(registry.has_hub(7));
    assert_eq!(registry.connection_of(7, 11), Some(1));
    registry.leave(7, 11);
    assert!(!registry.has_hub(7));
    assert_eq!(registry.connection_of(7, 11), None);
}

#[test]
fn publish_reaches_every_subscriber_and_prunes_a_full_queue() {
    let (tx_a, mut rx_a) = channel::<Vec<u8>>(4);
    let (tx_b, mut rx_b) = channel::<Vec<u8>>(1);
    let mut registry = Registry::new();
    registry.join(9, 1, Outbox::new(100, tx_a));
    registry.join(9, 2, Outbox::new(200, tx_b));
    let first = registry.publish(9, &vec![1u8, 2, 3], None);
    let mut delivered = first.delivered.clone();
    delivered.sort();
    assert_eq!(delivered, vec![1, 2]);
    assert!(first.pruned.is_empty());
    let second = registry.publish(9, &vec![4u8], None);
    assert_eq!(second.delivered, vec![1]);
    assert_eq!(second.pruned, vec![2]);
    assert_eq!(registry.connection_of(9, 2), None);
    assert_eq!(rx_a.try_recv().unwrap(), vec![1u8, 2, 3]);
    assert_eq!(rx_a.try_recv().unwrap(), vec![4u8]);
    assert_eq!(rx_b.try_recv().unwrap(), vec![1u8, 2, 3]);
    assert!(rx_b.try_recv().is_err());
}

#[test]
fn subscribing_to_a_room_without_a_hub_changes_nothing() {
    let (tx, _rx) = channel::<Vec<u8>>(4);
    let mut registry = Registry::new();
    assert!(!subscribe_to_channel_handler(3, 1, Outbox::new(1, tx.clone()), &mut registry));
    assert!(!registry.has_hub(3));
    registry.join(3, 2, Outbox::new(2, tx.clone()));
    assert!(subscribe_to_channel_handler(3, 1, Outbox::new(1, tx), &mut registry));
    assert_eq!(registry.connection_of(3, 1), Some(1));
    assert_eq!(registry.connection_of(3, 2), Some(2));
}

#[test]
fn a_fresh_hub_replaces_the_old_one_and_stops_with_its_teardown() {
    let (tx, _rx) = channel::<Vec<u8>>(4);
    let mut registry = Registry::new();
    registry.join(5, 9, Outbox::new(90, tx.clone()));
    let old_stop = {
        let first = create_chatroom_handler(&mut registry, 5, 1, Outbox::new(10, tx.clone()));
        assert!(!first.is_cancelled());
        first
    };
    assert_eq!(registry.connection_of(5, 9), None);
    assert_eq!(registry.connection_of(5, 1), Some(10));
    let stop = create_chatroom_handler(&mut registry, 5, 2, Outbox::new(20, tx));
    assert!(old_stop.is_cancelled());
    assert!(!stop.is_cancelled());
    assert_eq!(registry.connection_of(5, 1), None);
    assert!(registry.teardown(5));
    assert!(stop.is_cancelled());
    assert!(!registry.has_hub(5));
    assert!(!registry.teardown(5));
    assert!(!registry.has_hub(5));
}

#[test]
fn leaving_twice_or_leaving_a_room_never_joined_is_no_error() {
    let (tx, _rx) = channel::<Vec<u8>>(4);
    let mut registry = Registry::new();
    registry.join(1, 10, Outbox::new(1, tx.clone()));
    registry.join(1, 11, Outbox::new(2, tx));
    registry.leave(1, 10);
    registry.leave(1, 10);
    registry.leave(2, 10);
    assert!(registry.has_hub(1));
    assert_eq!(registry.connection_of(1, 11), Some(2));
    assert_eq!(registry.connection_of(1, 10), None);
}

#[test]
fn forgetting_an_identity_takes_it_out_of_every_room() {
    let (tx, _rx) = channel::<Vec<u8>>(4);
    let mut registry = Registry::new();
    registry.join(1, 10, Outbox::new(1, tx.clone()));
    registry.join(2, 10, Outbox::new(1, tx.clone()));
    registry.join(2, 11, Outbox::new(2, tx.clone()));
    registry.join(3, 11, Outbox::new(2, tx));
    registry.forget(10);
    let mut rooms = registry.room_ids();
    rooms.sort();
    assert_eq!(rooms, vec![2, 3]);
    assert_eq!(registry.connection_of(2, 10), None);
    assert_eq!(registry.connection_of(2, 11), Some(2));
    registry.forget(10);
    let mut rooms = registry.room_ids();
    rooms.sort();
    assert_eq!(rooms, vec![2, 3]);
}

#[test]
fn joining_again_replaces_the_queue() {
    let (tx_old, mut rx_old) = channel::<Vec<u8>>(4);
    let (tx_new, mut rx_new) = channel::<Vec<u8>>(4);
    let mut registry = Registry::new();
    registry.join(1, 10, Outbox::new(1, tx_old));
    registry.join(1, 10, Outbox::new(2, tx_new));
    assert_eq!(registry.connection_of(1, 10), Some(2));
    let report = registry.publish(1, &vec![5], None);
    assert_eq!(report.delivered, vec![10]);
    assert!(rx_old.try_recv().is_err());
    assert_eq!(rx_new.try_recv().unwrap(), vec![5]);
}

#[test]
fn publishing_to_a_room_without_a_hub_reaches_nobody() {
    let mut registry = Registry::new();
    let report = registry.publish(1, &vec![5], None);
    assert!(report.delivered.is_empty());
    assert!(report.pruned.is_empty());
    assert!(!registry.has_hub(1));
}

#[test]
fn a_hub_keeps_who_took_the_frame_and_skips_whom_it_is_told_to() {
    let (tx_a, mut rx_a) = channel::<Vec<u8>>(1);
    let (tx_b, mut rx_b) = channel::<Vec<u8>>(1);
    let mut hub = Hub::open();
    assert!(hub.is_empty());
    hub.add(1, Outbox::new(1, tx_a));
    hub.add(2, Outbox::new(2, tx_b));
    assert!(hub.has(1) && hub.has(2) && !hub.has(3));
    let report = hub.fan_out(&vec![1], Some(2));
    assert_eq!(report.delivered, vec![1]);
    assert!(report.pruned.is_empty());
    assert_eq!(rx_a.try_recv().unwrap(), vec![1]);
    assert!(rx_b.try_recv().is_err());
    drop(rx_b);
    let report = hub.fan_out(&vec![2], None);
    assert_eq!(report.delivered, vec![1]);
    assert_eq!(report.pruned, vec![2]);
    assert!(!hub.has(2));
    assert!(hub.remove(1));
    assert!(!hub.remove(1));
    assert!(hub.is_empty());
    let stop = hub.stop_signal();
    hub.close();
    assert!(stop.is_cancelled());
}

#[test]
fn attempts_are_sorted_in_their_order() {
    let report = settle(&vec![
        (4, Enqueue::Accepted),
        (9, Enqueue::Full),
        (2, Enqueue::Accepted),
        (7, Enqueue::Closed),
    ]);
    assert_eq!(report.delivered, vec![4, 2]);
    assert_eq!(report.pruned, vec![9, 7]);
    let none = settle(&vec![]);
    assert!(none.delivered.is_empty() && none.pruned.is_empty());
}

#[test]
fn an_address_is_claimed_once() {
    let mut open = OpenConnections::new();
    let a = RemoteAddr { ip: 0xffff_7f00_0001, port: 80 };
    let b = RemoteAddr { ip: 0xffff_7f00_0001, port: 81 };
    assert!(open.claim(a));
    assert!(!open.claim(a));
    assert!(open.claim(b));
    assert!(open.is_open(a) && open.is_open(b));
    assert!(open.release(a));
    assert!(!open.release(a));
    assert!(!open.is_open(a));
    assert!(open.is_open(b));
    assert!(open.claim(a));
}

#[test]
fn a_hub_is_active_while_somebody_is_subscribed_and_absent_otherwise() {
    let (tx, _rx) = channel::<Vec<u8>>(4);
    let mut registry = Registry::new();
    assert_eq!(registry.state_of(1), HubState::Absent);
    registry.join(1, 10, Outbox::new(1, tx));
    assert_eq!(registry.state_of(1), HubState::Active);
    assert_eq!(registry.state_of(2), HubState::Absent);
    registry.leave(1, 10);
    assert_eq!(registry.state_of(1), HubState::Absent);
}

#[test]
fn a_hub_hands_out_its_own_stop_signal() {
    let (tx, _rx) = channel::<Vec<u8>>(4);
    let mut hub = Hub::open();
    let other = Hub::open();
    let before = hub.stop_signal();
    hub.add(1, Outbox::new(1, tx));
    hub.fan_out(&vec![1], None);
    hub.remove(1);
    let after = hub.stop_signal();
    assert!(before == after);
    assert!(before != other.stop_signal());
    assert!(!before.is_cancelled());
    hub.close();
    assert!(before.is_cancelled() && after.is_cancelled());
    assert!(!other.stop_signal().is_cancelled());
}
