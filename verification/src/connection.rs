//! What a connection to the server reports back to the client logic.

use vstd::prelude::*;

verus! {

/// What a read on a connection produced.
pub enum ReadResult {
    /// Handshake bytes were exchanged; the handshake is not done yet.
    HandshakingInProgress,
    /// The handshake finished; `buffer[..byte_count]` are the bytes that followed it.
    HandshakeCompleted { buffer: Vec<u8>, byte_count: usize },
    /// Nothing was waiting on the socket.
    NoBytesReceived,
    /// `buffer[..byte_count]` arrived after the handshake.
    BytesReceived { buffer: Vec<u8>, byte_count: usize },
}

/// Why a read on a connection failed.
#[derive(PartialEq, Eq, Structural, Clone, Copy, Debug)]
pub enum ConnectionError {
    /// The peer closed the socket.
    SocketClosed,
    /// Any other I/O or handshake failure.
    IoError,
}

/// Which ways a socket is ready, as the poller reports it.
#[derive(PartialEq, Eq, Structural, Clone, Copy, Debug)]
pub struct Readiness {
    pub readable: bool,
    pub writable: bool,
}

} // verus!
