use vstd::prelude::*;

verus! {

/// What the engine, having processed the buffered input, asks for next.
/// Only the engine moves from one state to another; the bridge reacts.
#[derive(Debug, Clone, Copy, PartialEq, Eq, Structural)]
pub enum ChannelState {
    /// A handshake message waits to be encoded into the outgoing buffer.
    NeedsEncode,
    /// Encoded handshake data waits to be written to the transport.
    NeedsTransmit,
    /// The handshake is blocked until the peer sends more.
    NeedsReceive,
    /// Decrypted application records are ready to be taken.
    ReadableApplication,
    /// The channel is open and application data may be encrypted.
    WritableApplication,
    /// The connection is closed.
    Closed,
}

impl ChannelState {
    /// Whether the handshake is over and application traffic may flow.
    pub open spec fn is_traffic(self) -> bool {
        self is ReadableApplication || self is WritableApplication
    }
}

} // verus!
