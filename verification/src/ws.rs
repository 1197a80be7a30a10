use vstd::prelude::*;

verus! {

/// Why a WebSocket read or write failed.
#[derive(Clone, Copy, Debug, PartialEq, Eq, Structural)]
pub enum WsFault {
    /// The connection was closed by the close handshake.
    ConnectionClosed,
    /// The connection had already been closed.
    AlreadyClosed,
    /// The peer reset the connection without the close handshake.
    ResetWithoutClosingHandshake,
    /// The transport failed.
    Io,
    /// Any other failure (a protocol violation, a bad frame, ...).
    Other,
}

/// A message read from a WebSocket.
pub enum WsFrame {
    Ping(Vec<u8>),
    Pong,
    Binary(Vec<u8>),
    /// Text, close and raw frames.
    Other,
}

/// What the reading side of a WebSocket connection does with what it read.
pub enum ReadStep {
    /// Stop reading: the connection is gone.
    Stop,
    /// Report the failure and read on.
    ReportError,
    /// Answer with a pong carrying this payload.
    ReplyPong(Vec<u8>),
    /// Hand these bytes to the packet handler.
    Deliver(Vec<u8>),
    /// Note the pong and read on.
    SawPong,
    /// Warn about an unexpected message and read on.
    Unexpected,
}

/// What the writing side of a WebSocket connection does after a send.
#[derive(Clone, Copy, Debug, PartialEq, Eq, Structural)]
pub enum WriteStep {
    /// Write the next queued message.
    Continue,
    /// Report the failure and write on.
    ReportError,
    /// Stop writing: the connection is gone.
    Stop,
}

/// The failures after which a connection is treated as gone.
pub open spec fn closes(f: WsFault) -> bool {
    match f {
        WsFault::ConnectionClosed | WsFault::AlreadyClosed | WsFault::ResetWithoutClosingHandshake
        | WsFault::Io => true,
        WsFault::Other => false,
    }
}

/// Whether a failure ends the connection: a closed or reset connection or a
/// transport failure does; any other failure does not.
pub fn fault_closes(f: WsFault) -> (r: bool)
    ensures
        r == closes(f),
{
    match f {
        WsFault::ConnectionClosed | WsFault::AlreadyClosed | WsFault::ResetWithoutClosingHandshake
        | WsFault::Io => true,
        WsFault::Other => false,
    }
}

/// Decides what to do with one result of reading a WebSocket: stop when
/// the connection is gone, report other failures, answer a ping with a pong
/// carrying the same payload, hand binary messages on, note pongs and warn
/// about anything else.
pub fn read_step(next: Result<WsFrame, WsFault>) -> (step: ReadStep)
    ensures
        match next {
            Err(f) => if closes(f) { step is Stop } else { step is ReportError },
            Ok(WsFrame::Ping(p)) => step matches ReadStep::ReplyPong(q) && q@ == p@,
            Ok(WsFrame::Pong) => step is SawPong,
            Ok(WsFrame::Binary(d)) => step matches ReadStep::Deliver(e) && e@ == d@,
            Ok(WsFrame::Other) => step is Unexpected,
        },
{
    match next {
        Err(f) => if fault_closes(f) {
            ReadStep::Stop
        } else {
            ReadStep::ReportError
        },
        Ok(WsFrame::Ping(p)) => ReadStep::ReplyPong(p),
        Ok(WsFrame::Pong) => ReadStep::SawPong,
        Ok(WsFrame::Binary(d)) => ReadStep::Deliver(d),
        Ok(WsFrame::Other) => ReadStep::Unexpected,
    }
}

/// Decides what to do after writing a message to a WebSocket: go on after
/// a success, stop when the connection is gone, report other failures.
pub fn write_step(sent: Result<(), WsFault>) -> (step: WriteStep)
    ensures
        match sent {
            Ok(()) => step == WriteStep::Continue,
            Err(f) => step == (if closes(f) { WriteStep::Stop } else { WriteStep::ReportError }),
        },
{
    match sent {
        Ok(()) => WriteStep::Continue,
        Err(f) => if fault_closes(f) {
            WriteStep::Stop
        } else {
            WriteStep::ReportError
        },
    }
}

} // verus!
