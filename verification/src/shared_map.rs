use vstd::prelude::*;
use dashmap::DashMap;
use std::collections::hash_map::RandomState;
use crate::conn::{ConnId, ConnHandle};
use crate::room::Room;

verus! {

#[verifier::external_type_specification]
#[verifier::external_body]
#[verifier::reject_recursive_types(K)]
#[verifier::reject_recursive_types(V)]
#[verifier::reject_recursive_types(S)]
pub struct ExDashMap<K, V, S>(DashMap<K, V, S>);

/// What a room's member table holds: connection identity to handle.
pub uninterp spec fn member_entries(m: DashMap<ConnId, ConnHandle>) -> Map<ConnId, ConnHandle>;

/// What the table of rooms holds: room id to room.
pub uninterp spec fn room_entries(m: DashMap<u128, Room>) -> Map<u128, Room>;

/// `DashMap::new` for a member table: the table starts empty.
#[verifier::external_body]
pub(crate) fn members_new() -> (table: DashMap<ConnId, ConnHandle>)
    ensures
        member_entries(table) =~= Map::empty(),
{
    DashMap::new()
}

/// `DashMap::insert` on a member table: afterwards the key maps to the value
/// and every other entry is as before; the value the key had, if any, comes back.
#[verifier::external_body]
pub(crate) fn members_insert(
    m: &mut DashMap<ConnId, ConnHandle>,
    k: ConnId,
    v: ConnHandle,
) -> (prev: Option<ConnHandle>)
    ensures
        member_entries(*final(m)) == member_entries(*old(m)).insert(k, v),
        prev == (if member_entries(*old(m)).contains_key(k) {
            Some(member_entries(*old(m))[k])
        } else {
            None
        }),
{
    m.insert(k, v)
}

/// `DashMap::remove` on a member table: afterwards the key is absent and every
/// other entry is as before; the removed entry, if there was one, comes back.
#[verifier::external_body]
pub(crate) fn members_remove(
    m: &mut DashMap<ConnId, ConnHandle>,
    k: &ConnId,
) -> (removed: Option<(ConnId, ConnHandle)>)
    ensures
        member_entries(*final(m)) == member_entries(*old(m)).remove(*k),
        removed == (if member_entries(*old(m)).contains_key(*k) {
            Some((*k, member_entries(*old(m))[*k]))
        } else {
            None
        }),
{
    m.remove(k)
}

/// `DashMap::iter` on a member table, each entry copied out. Every entry of
/// the table comes out once, with its handle; the order is the table's
/// walking order, which is left open.
#[verifier::external_body]
pub(crate) fn members_snapshot(m: &DashMap<ConnId, ConnHandle>) -> (entries: Vec<(ConnId, ConnHandle)>)
    ensures
        forall|i: int| 0 <= i < entries@.len() ==> {
            &&& member_entries(*m).contains_key(#[trigger] entries@[i].0)
            &&& member_entries(*m)[entries@[i].0] == entries@[i].1
        },
        forall|k: ConnId| member_entries(*m).contains_key(k) ==>
            exists|i: int| 0 <= i < entries@.len() && (#[trigger] entries@[i]).0 == k,
        forall|i: int, j: int| 0 <= i < j < entries@.len() ==> entries@[i].0 != entries@[j].0,
{
    m.iter().map(|e| (*e.key(), *e.value())).collect()
}

/// `DashMap::new` for the table of rooms: the table starts empty.
#[verifier::external_body]
pub(crate) fn rooms_new() -> (table: DashMap<u128, Room>)
    ensures
        room_entries(table) =~= Map::empty(),
{
    DashMap::new()
}

/// `DashMap::insert` on the table of rooms: afterwards the id maps to the
/// room and every other entry is as before.
#[verifier::external_body]
pub(crate) fn rooms_insert(m: &mut DashMap<u128, Room>, k: u128, v: Room) -> (prev: Option<Room>)
    ensures
        room_entries(*final(m)) == room_entries(*old(m)).insert(k, v),
        prev == (if room_entries(*old(m)).contains_key(k) {
            Some(room_entries(*old(m))[k])
        } else {
            None
        }),
{
    m.insert(k, v)
}

/// `DashMap::remove` on the table of rooms: afterwards the id is absent and
/// every other entry is as before; the removed room, if any, comes back.
#[verifier::external_body]
pub(crate) fn rooms_remove(m: &mut DashMap<u128, Room>, k: &u128) -> (removed: Option<(u128, Room)>)
    ensures
        room_entries(*final(m)) == room_entries(*old(m)).remove(*k),
        removed == (if room_entries(*old(m)).contains_key(*k) {
            Some((*k, room_entries(*old(m))[*k]))
        } else {
            None
        }),
{
    m.remove(k)
}

} // verus!
