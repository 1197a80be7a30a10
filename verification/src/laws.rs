use vstd::prelude::*;
use crate::conn::{ConnId, ConnHandle};
use crate::room::{fanout, followup_for, joined, left, members_of, settled, Delivery, Followup, Members, RoomTable};

verus! {

/// After `id` joins a room, it is a member of that room with the handle it
/// joined with, and a packet that anyone else sends to the room reaches it.
pub proof fn law_joined_member_receives(t: RoomTable, room: u128, id: ConnId, h: ConnHandle, sender: ConnId)
    requires
        sender != id,
    ensures
        members_of(joined(t, room, id, h), room).contains_key(id),
        members_of(joined(t, room, id, h), room)[id] == h,
        fanout(members_of(joined(t, room, id, h), room), sender).contains_key(id),
        fanout(members_of(joined(t, room, id, h), room), sender)[id] == h,
{
}

/// After `id` leaves a room, no packet sent to that room reaches it.
pub proof fn law_left_member_receives_nothing(t: RoomTable, room: u128, id: ConnId, sender: ConnId)
    ensures
        !members_of(left(t, room, id), room).contains_key(id),
        !fanout(members_of(left(t, room, id), room), sender).contains_key(id),
{
}

/// A sender never receives its own packet; every other member does.
pub proof fn law_sender_excluded(m: Members, sender: ConnId, other: ConnId)
    ensures
        !fanout(m, sender).contains_key(sender),
        other != sender ==> (fanout(m, sender).contains_key(other) <==> m.contains_key(other)),
        other != sender && m.contains_key(other) ==> fanout(m, sender)[other] == m[other],
{
}

/// Joining or leaving one room leaves every other room as it was.
pub proof fn law_other_rooms_untouched(t: RoomTable, room: u128, other: u128, id: ConnId, h: ConnHandle)
    requires
        other != room,
    ensures
        joined(t, room, id, h).contains_key(other) == t.contains_key(other),
        left(t, room, id).contains_key(other) == t.contains_key(other),
        members_of(joined(t, room, id, h), other) == members_of(t, other),
        members_of(left(t, room, id), other) == members_of(t, other),
{
}

/// Joining and then leaving a room ends as leaving alone does: the join
/// leaves no trace.
pub proof fn law_join_then_leave(t: RoomTable, room: u128, id: ConnId, h: ConnHandle)
    ensures
        left(joined(t, room, id, h), room, id) == left(t, room, id),
{
    assert(members_of(joined(t, room, id, h), room).remove(id) =~= members_of(t, room).remove(id));
    assert(left(joined(t, room, id, h), room, id) =~= left(t, room, id));
}

/// Leaving and then joining a room ends as joining alone does.
pub proof fn law_leave_then_join(t: RoomTable, room: u128, id: ConnId, h: ConnHandle)
    ensures
        joined(left(t, room, id), room, id, h) == joined(t, room, id, h),
{
    assert(members_of(left(t, room, id), room).insert(id, h) =~= members_of(t, room).insert(id, h));
    assert(joined(left(t, room, id), room, id, h) =~= joined(t, room, id, h));
}

/// Joining twice is joining once; leaving twice is leaving once.
pub proof fn law_repeat_is_noop(t: RoomTable, room: u128, id: ConnId, h: ConnHandle)
    ensures
        joined(joined(t, room, id, h), room, id, h) == joined(t, room, id, h),
        left(left(t, room, id), room, id) == left(t, room, id),
{
    assert(members_of(joined(t, room, id, h), room).insert(id, h) =~= members_of(t, room).insert(id, h));
    assert(joined(joined(t, room, id, h), room, id, h) =~= joined(t, room, id, h));
    assert(members_of(left(t, room, id), room).remove(id) =~= members_of(t, room).remove(id));
    assert(left(left(t, room, id), room, id) =~= left(t, room, id));
}

/// Two different connections joining a room end with the same rooms in
/// either order.
pub proof fn law_joins_commute(t: RoomTable, room: u128, a: ConnId, ha: ConnHandle, b: ConnId, hb: ConnHandle)
    requires
        a != b,
    ensures
        joined(joined(t, room, a, ha), room, b, hb) == joined(joined(t, room, b, hb), room, a, ha),
{
    assert(members_of(t, room).insert(a, ha).insert(b, hb) =~= members_of(t, room).insert(b, hb).insert(a, ha));
    assert(joined(joined(t, room, a, ha), room, b, hb) =~= joined(joined(t, room, b, hb), room, a, ha));
}

/// Each delivery outcome changes a room's members in one way only, whoever
/// the sender and the member are and whatever kind of connection they use:
/// a refused QUIC stream removes exactly that member, a closed WebSocket
/// queue removes exactly the sender, and a packet that was sent or a full
/// queue change nothing. Every other member stays, with its handle.
pub proof fn law_failed_delivery_drops(m: Members, sender: ConnId, member: ConnId, other: ConnId)
    ensures
        settled(m, Delivery::QuicStreamRefused, sender, member) == m.remove(member),
        settled(m, Delivery::WsQueueClosed, sender, member) == m.remove(sender),
        settled(m, Delivery::Sent, sender, member) == m,
        settled(m, Delivery::WsQueueFull, sender, member) == m,
        !settled(m, Delivery::QuicStreamRefused, sender, member).contains_key(member),
        !settled(m, Delivery::WsQueueClosed, sender, member).contains_key(sender),
        other != member ==> settled(m, Delivery::QuicStreamRefused, sender, member).contains_key(other)
            == m.contains_key(other),
        other != member && m.contains_key(other) ==> settled(m, Delivery::QuicStreamRefused, sender, member)[other]
            == m[other],
        other != sender ==> settled(m, Delivery::WsQueueClosed, sender, member).contains_key(other)
            == m.contains_key(other),
        other != sender && m.contains_key(other) ==> settled(m, Delivery::WsQueueClosed, sender, member)[other]
            == m[other],
{
    assert(settled(m, Delivery::QuicStreamRefused, sender, member) =~= m.remove(member));
    assert(settled(m, Delivery::WsQueueClosed, sender, member) =~= m.remove(sender));
}

/// What the host is told after a delivery, whoever the sender and the member
/// are and whatever kind of connection they use: nothing more after a
/// packet was sent, wait on a full WebSocket queue so that the member still
/// gets the packet, and which connection was removed otherwise: the member
/// whose QUIC stream was refused, or the sender when a member's WebSocket
/// queue was closed.
pub proof fn law_followup(sender: ConnId, member: ConnId)
    ensures
        followup_for(Delivery::Sent, sender, member) == Followup::Nothing,
        followup_for(Delivery::WsQueueFull, sender, member) == Followup::AwaitSend,
        followup_for(Delivery::QuicStreamRefused, sender, member) == Followup::Removed(member),
        followup_for(Delivery::WsQueueClosed, sender, member) == Followup::Removed(sender),
{
}

} // verus!
