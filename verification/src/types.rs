//! Data carried through the control loop: blocks, peers, lifecycle events,
//! and the error taxonomy of consensus-node operations.
//!
//! These hold, as plain values, exactly what the loop reads: identifiers are
//! opaque byte sequences, a block is its sequence number plus its own and its
//! parent's identifier.

use vstd::prelude::*;

verus! {

/// Opaque content identifier of a block.
pub type BlockId = Vec<u8>;

/// Opaque identifier of a remote participant.
pub type PeerId = Vec<u8>;

/// A proposed or committed ledger unit, as far as the loop reads it.
#[derive(Debug, Clone, PartialEq, Eq)]
pub struct Block {
    pub block_num: u64,
    pub block_id: BlockId,
    pub previous_id: BlockId,
}

/// A remote participant, supplied by the host at startup or on connect.
#[derive(Debug, Clone, PartialEq, Eq)]
pub struct PeerInfo {
    pub peer_id: PeerId,
}

/// The part of a peer message's header that the loop reads: the textual
/// message-type tag.
#[derive(Debug, Clone, PartialEq, Eq)]
pub struct PeerMessageHeader {
    pub message_type: String,
}

/// A consensus-related message received from a peer.
#[derive(Debug, Clone, PartialEq, Eq)]
pub struct PeerMessage {
    pub header: PeerMessageHeader,
    pub content: Vec<u8>,
}

/// One lifecycle or peer notification from the host runtime.
#[derive(Debug, Clone, PartialEq, Eq)]
pub enum Update {
    BlockNew(Block),
    BlockValid(BlockId),
    BlockInvalid(BlockId),
    BlockCommit(BlockId),
    PeerMessage(PeerMessage, PeerId),
    PeerConnected(PeerInfo),
    PeerDisconnected(PeerId),
    Shutdown,
}

/// What one bounded-timeout wait on the host's event channel yields: an
/// update, no event within the window, or a closed channel.
#[derive(Debug, Clone, PartialEq, Eq)]
pub enum Incoming {
    Event(Update),
    Timeout,
    Disconnected,
}

/// Failure of a consensus-node state transition, reported back to the loop.
/// Every variant is recoverable at the loop level: it is logged and the loop
/// continues.
#[derive(Debug, Clone, PartialEq, Eq)]
pub enum NodeError {
    EncodingError(String),
    SendError(String),
    ReceiveError(String),
    InvalidState(String),
    UnknownBlock(String),
    UnknownPeer(String),
    NoChainHead,
    BlockNotReady,
}

} // verus!
