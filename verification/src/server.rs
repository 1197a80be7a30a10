use vstd::prelude::*;
use crate::conn::{ConnId, ConnHandle};
use crate::room::{fanout, joined, left, lists_exactly, Rooms};

verus! {

/// Largest packet, in bytes, read from one QUIC stream.
pub const QUIC_PACKET_LIMIT: usize = 1024;

/// Seconds that a fan-out of one packet may take.
pub const FANOUT_TIMEOUT_SECS: u64 = 7;

/// Seconds between QUIC keep-alives.
pub const QUIC_KEEP_ALIVE_SECS: u64 = 5;

/// Seconds after which an idle QUIC connection is closed.
pub const QUIC_IDLE_TIMEOUT_SECS: u64 = 8;

/// Capacity of the queue of outgoing WebSocket messages per connection.
pub const WS_QUEUE_CAPACITY: usize = 64;

/// A control word carried by a packet.
#[derive(Clone, Copy, Debug, PartialEq, Eq, Structural)]
pub enum Ctl {
    /// Subscribe the sending connection to the packet's room.
    Sub,
    /// Unsubscribe the sending connection from the packet's room.
    Unsub,
}

/// What the centre reads of a packet: the room it is for, and its control
/// word, if it carries one.
#[derive(Clone, Copy, Debug, PartialEq, Eq, Structural)]
pub struct Packet {
    pub room_id: u128,
    pub ctl: Option<Ctl>,
}

/// What became of a received packet.
pub enum Routing {
    /// The sender joined the packet's room.
    Subscribed,
    /// The sender left the packet's room.
    Unsubscribed,
    /// The packet goes, as it was received, to these members of its room.
    Fanout(Vec<(ConnId, ConnHandle)>),
    /// The packet's room does not exist; the packet goes nowhere.
    NoRoom,
}

/// Handles a packet that connection `conn_id` (handle `conn`) sent: a
/// subscription joins it to the packet's room, an unsubscription takes it
/// out, and any other packet is planned to go to every other member of the
/// room.
pub fn receive_packets(rooms: &mut Rooms, pkt: &Packet, conn: ConnHandle, conn_id: ConnId) -> (routing: Routing)
    ensures
        match pkt.ctl {
            Some(Ctl::Sub) => {
                &&& final(rooms)@ == joined(old(rooms)@, pkt.room_id, conn_id, conn)
                &&& routing is Subscribed
            },
            Some(Ctl::Unsub) => {
                &&& final(rooms)@ == left(old(rooms)@, pkt.room_id, conn_id)
                &&& routing is Unsubscribed
            },
            None => {
                &&& final(rooms)@ == old(rooms)@
                &&& if old(rooms)@.contains_key(pkt.room_id) {
                    &&& routing matches Routing::Fanout(v)
                    &&& lists_exactly(v@, fanout(old(rooms)@[pkt.room_id], conn_id))
                } else {
                    routing is NoRoom
                }
            },
        },
{
    match pkt.ctl {
        Some(Ctl::Sub) => {
            rooms.join(pkt.room_id, conn, conn_id);
            Routing::Subscribed
        },
        Some(Ctl::Unsub) => {
            rooms.leave(pkt.room_id, conn_id);
            Routing::Unsubscribed
        },
        None => match rooms.send(pkt.room_id, conn_id) {
            Some(targets) => Routing::Fanout(targets),
            None => Routing::NoRoom,
        },
    }
}

} // verus!
