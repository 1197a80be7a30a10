use mesagisto_center::conn::ConnId;
use mesagisto_center::room::{Delivery, Followup, Room, Rooms};

fn quic(n: u64) -> ConnId {
    ConnId::Quic(n)
}

fn ws(port: u16) -> ConnId {
    ConnId::Ws { v6: false, ip: 0x7f00_0001, port, flowinfo: 0, scope_id: 0 }
}

fn sorted(mut v: Vec<(ConnId, u64)>) -> Vec<(ConnId, u64)> {
    v.sort_by_key(|(id, h)| (format!("{:?}", id), *h));
    v
}

#[test]
fn join_then_others_receive() {
    let mut rooms = Rooms::new();
    rooms.join(7, 100, quic(1));
    rooms.join(7, 200, ws(9000));
    rooms.join(7, 300, quic(3));
    let targets = rooms.send(7, quic(1)).expect("room exists");
    assert_eq!(sorted(targets), sorted(vec![(ws(9000), 200), (quic(3), 300)]));
}

#[test]
fn sender_never_receives_its_own_packet() {
    let mut rooms = Rooms::new();
    rooms.join(1, 10, quic(1));
    let targets = rooms.send(1, quic(1)).expect("room exists");
    assert!(targets.is_empty());
}

#[test]
fn sending_to_a_missing_room_goes_nowhere() {
    let mut rooms = Rooms::new();
    rooms.join(1, 10, quic(1));
    assert!(rooms.send(2, quic(1)).is_none());
}

#[test]
fn leave_removes_member() {
    let mut rooms = Rooms::new();
    rooms.join(5, 10, quic(1));
    rooms.join(5, 20, quic(2));
    rooms.leave(5, quic(2));
    assert_eq!(rooms.send(5, quic(9)).unwrap(), vec![(quic(1), 10)]);
}

#[test]
fn leave_of_unknown_room_creates_it_empty() {
    let mut rooms = Rooms::new();
    rooms.leave(42, quic(1));
    assert_eq!(rooms.send(42, quic(2)), Some(vec![]));
}

#[test]
fn join_then_leave_leaves_no_trace() {
    let mut rooms = Rooms::new();
    rooms.join(3, 1, quic(1));
    rooms.join(3, 2, quic(2));
    rooms.leave(3, quic(2));
    let mut other = Rooms::new();
    other.join(3, 1, quic(1));
    assert_eq!(rooms.send(3, quic(0)), other.send(3, quic(0)));
}

#[test]
fn rejoin_replaces_handle() {
    let mut rooms = Rooms::new();
    rooms.join(3, 1, quic(1));
    rooms.join(3, 5, quic(1));
    assert_eq!(rooms.send(3, quic(0)).unwrap(), vec![(quic(1), 5)]);
}

#[test]
fn joining_one_room_leaves_others_alone() {
    let mut rooms = Rooms::new();
    rooms.join(1, 10, quic(1));
    rooms.join(2, 20, quic(2));
    rooms.leave(2, quic(2));
    assert_eq!(rooms.send(1, quic(0)).unwrap(), vec![(quic(1), 10)]);
}

#[test]
fn refused_quic_stream_drops_member() {
    let mut rooms = Rooms::new();
    rooms.join(1, 10, quic(1));
    rooms.join(1, 20, quic(2));
    let next = rooms.settle(1, quic(1), quic(2), Delivery::QuicStreamRefused);
    assert_eq!(next, Followup::Removed(quic(2)));
    assert_eq!(rooms.send(1, quic(9)).unwrap(), vec![(quic(1), 10)]);
}

#[test]
fn closed_ws_queue_drops_the_sender() {
    let mut rooms = Rooms::new();
    rooms.join(1, 10, quic(1));
    rooms.join(1, 20, ws(80));
    let next = rooms.settle(1, quic(1), ws(80), Delivery::WsQueueClosed);
    assert_eq!(next, Followup::Removed(quic(1)));
    assert_eq!(rooms.send(1, quic(9)).unwrap(), vec![(ws(80), 20)]);
}

#[test]
fn full_ws_queue_is_waited_on() {
    let mut rooms = Rooms::new();
    rooms.join(1, 10, quic(1));
    rooms.join(1, 20, ws(80));
    assert_eq!(rooms.settle(1, quic(1), ws(80), Delivery::WsQueueFull), Followup::AwaitSend);
    assert_eq!(rooms.settle(1, quic(1), ws(80), Delivery::Sent), Followup::Nothing);
    assert_eq!(rooms.send(1, quic(9)).unwrap().len(), 2);
}

#[test]
fn settle_in_missing_room_changes_nothing() {
    let mut rooms = Rooms::new();
    let next = rooms.settle(4, quic(1), quic(2), Delivery::QuicStreamRefused);
    assert_eq!(next, Followup::Removed(quic(2)));
    assert!(rooms.send(4, quic(1)).is_none());
}

#[test]
fn single_room_plan_and_settle() {
    let mut room = Room::new();
    assert!(room.send(quic(1)).is_empty());
    assert_eq!(room.settle(quic(1), quic(2), Delivery::WsQueueClosed), Followup::Removed(quic(1)));
}

#[test]
fn joining_or_leaving_twice_is_once() {
    let mut twice = Rooms::default();
    twice.join(1, 10, quic(1));
    twice.join(1, 10, quic(1));
    twice.join(1, 20, quic(2));
    twice.leave(1, quic(2));
    twice.leave(1, quic(2));
    let mut once = Rooms::default();
    once.join(1, 10, quic(1));
    once.join(1, 20, quic(2));
    once.leave(1, quic(2));
    assert_eq!(twice.send(1, quic(0)), once.send(1, quic(0)));
}

#[test]
fn join_order_does_not_matter() {
    let mut ab = Rooms::new();
    ab.join(1, 10, quic(1));
    ab.join(1, 20, ws(2));
    let mut ba = Rooms::new();
    ba.join(1, 20, ws(2));
    ba.join(1, 10, quic(1));
    assert_eq!(sorted(ab.send(1, quic(0)).unwrap()), sorted(ba.send(1, quic(0)).unwrap()));
}

#[test]
fn leave_then_join_is_join() {
    let mut rooms = Rooms::new();
    rooms.leave(1, quic(1));
    rooms.join(1, 10, quic(1));
    assert_eq!(rooms.send(1, quic(0)).unwrap(), vec![(quic(1), 10)]);
}

#[test]
fn default_room_is_empty() {
    let room = Room::default();
    assert!(room.send(quic(1)).is_empty());
}
