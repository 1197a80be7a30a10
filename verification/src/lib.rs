//! Relay core of a message centre: clients subscribe to rooms and every
//! packet sent to a room is fanned out to the room's other members.

pub mod config;
pub mod conn;
pub mod shared_map;
pub mod room;
pub mod laws;
pub mod server;
pub mod ws;
pub mod tls;
