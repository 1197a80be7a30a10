use mesagisto_center::conn::ConnId;
use mesagisto_center::room::Rooms;
use mesagisto_center::server::{receive_packets, Ctl, Packet, Routing};

#[test]
fn sub_packet_joins_the_room() {
    let mut rooms = Rooms::new();
    let r = receive_packets(&mut rooms, &Packet { room_id: 9, ctl: Some(Ctl::Sub) }, 1, ConnId::Quic(1));
    assert!(matches!(r, Routing::Subscribed));
    assert_eq!(rooms.send(9, ConnId::Quic(2)).unwrap(), vec![(ConnId::Quic(1), 1)]);
}

#[test]
fn unsub_packet_leaves_the_room() {
    let mut rooms = Rooms::new();
    receive_packets(&mut rooms, &Packet { room_id: 9, ctl: Some(Ctl::Sub) }, 1, ConnId::Quic(1));
    let r = receive_packets(&mut rooms, &Packet { room_id: 9, ctl: Some(Ctl::Unsub) }, 1, ConnId::Quic(1));
    assert!(matches!(r, Routing::Unsubscribed));
    assert_eq!(rooms.send(9, ConnId::Quic(2)).unwrap(), vec![]);
}

#[test]
fn plain_packet_fans_out_to_the_others() {
    let mut rooms = Rooms::new();
    receive_packets(&mut rooms, &Packet { room_id: 9, ctl: Some(Ctl::Sub) }, 1, ConnId::Quic(1));
    receive_packets(&mut rooms, &Packet { room_id: 9, ctl: Some(Ctl::Sub) }, 2, ConnId::Quic(2));
    match receive_packets(&mut rooms, &Packet { room_id: 9, ctl: None }, 1, ConnId::Quic(1)) {
        Routing::Fanout(targets) => assert_eq!(targets, vec![(ConnId::Quic(2), 2)]),
        _ => panic!("expected a fan-out"),
    }
}

#[test]
fn plain_packet_to_unknown_room_goes_nowhere() {
    let mut rooms = Rooms::new();
    let r = receive_packets(&mut rooms, &Packet { room_id: 3, ctl: None }, 1, ConnId::Quic(1));
    assert!(matches!(r, Routing::NoRoom));
    assert!(rooms.send(3, ConnId::Quic(1)).is_none());
}
