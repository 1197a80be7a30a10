use vstd::prelude::*;

verus! {

/// Identity of a client connection.
///
/// A QUIC connection is known by its stable id; a WebSocket connection by the
/// socket address of its peer, held here as plain numbers.
#[derive(Clone, Copy, Debug, PartialEq, Eq, Hash, Structural)]
pub enum ConnId {
    Quic(u64),
    Ws { v6: bool, ip: u128, port: u16, flowinfo: u32, scope_id: u32 },
}

/// The number by which the host finds a live connection again.
pub type ConnHandle = u64;

} // verus!
