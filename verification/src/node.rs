//! The contract the loop requires from the consensus node, and a scripted
//! mock of it.
//!
//! The vote-tallying and queen-rotation algorithm itself is a collaborator
//! behind this interface: the loop only routes events into it and propagates
//! its tri-state outcome. A state-transition call answers `Ok(true)` to keep
//! the loop running, `Ok(false)` to stop it, or a recoverable error.

use vstd::prelude::*;

use crate::types::{Block, NodeError};

verus! {

/// The interface of the agreement algorithm, as the loop calls it.
///
/// Exclusive access to the shared consensus state is expressed by `&mut
/// self`: the implementor owns (or exclusively borrows) that state, and one
/// dispatch plus one ticker check run under a single such borrow.
///
/// Each `*_result` spec function names the outcome the matching
/// state-transition call answers from a given pre-state; what the call does
/// to the node's own state is left open.
pub trait ConsensusNode: Sized {
    /// The outcome `on_block_new` answers from this pre-state.
    spec fn block_new_result(&self, block: Block) -> Result<bool, NodeError>;

    /// The outcome `on_block_valid` answers from this pre-state.
    spec fn block_valid_result(&self, block_id: Seq<u8>) -> Result<bool, NodeError>;

    /// The outcome `on_block_invalid` answers from this pre-state.
    spec fn block_invalid_result(&self, block_id: Seq<u8>) -> Result<bool, NodeError>;

    /// The outcome `on_block_commit` answers from this pre-state.
    spec fn block_commit_result(&self, block_id: Seq<u8>) -> Result<bool, NodeError>;

    /// A new block has appeared on the network.
    fn on_block_new(&mut self, block: Block) -> (r: Result<bool, NodeError>)
        ensures
            r == old(self).block_new_result(block),
    ;

    /// The host has validated a block.
    fn on_block_valid(&mut self, block_id: Vec<u8>) -> (r: Result<bool, NodeError>)
        ensures
            r == old(self).block_valid_result(block_id@),
    ;

    /// The host has found a block invalid.
    fn on_block_invalid(&mut self, block_id: Vec<u8>) -> (r: Result<bool, NodeError>)
        ensures
            r == old(self).block_invalid_result(block_id@),
    ;

    /// The host has committed a block.
    fn on_block_commit(&mut self, block_id: Vec<u8>) -> (r: Result<bool, NodeError>)
        ensures
            r == old(self).block_commit_result(block_id@),
    ;

    /// A peer message arrived; the loop forwards the tag and the first
    /// content byte.
    fn on_peer_message(&mut self, message_type: &str, content_head: u8);

    /// A peer connected.
    fn on_peer_connected(&mut self, peer_id: Vec<u8>);

    /// Propose a block if one is due; invoked by the loop when the publish
    /// ticker fires.
    fn try_publish(&mut self);
}

/// One call the loop made into the node, with the arguments it forwarded.
#[derive(Debug, Clone, PartialEq, Eq)]
pub enum NodeCall {
    BlockNew(Block),
    BlockValid(Vec<u8>),
    BlockInvalid(Vec<u8>),
    BlockCommit(Vec<u8>),
    PeerMessage(String, u8),
    PeerConnected(Vec<u8>),
    TryPublish,
}

/// A scripted stand-in for the agreement algorithm: it records every call
/// the loop makes, in order, and answers state-transition calls from a fixed
/// script of outcomes, front to back. When the script is exhausted it
/// answers `Ok(true)`.
pub struct MockNode {
    pub calls: Vec<NodeCall>,
    pub responses: Vec<Result<bool, NodeError>>,
}

impl MockNode {
    /// The outcome the next state-transition call will answer.
    pub open spec fn spec_next_response(&self) -> Result<bool, NodeError> {
        if self.responses@.len() > 0 {
            self.responses@[0]
        } else {
            Ok(true)
        }
    }

    /// A mock that will answer the given outcomes in order.
    pub fn new(responses: Vec<Result<bool, NodeError>>) -> (m: MockNode)
        ensures
            m.calls@ == Seq::<NodeCall>::empty(),
            m.responses == responses,
    {
        MockNode { calls: Vec::new(), responses }
    }

    /// Consumes and returns the front of the response script.
    fn take_response(&mut self) -> (r: Result<bool, NodeError>)
        ensures
            r == old(self).spec_next_response(),
            final(self).calls == old(self).calls,
    {
        if self.responses.len() > 0 {
            self.responses.remove(0)
        } else {
            Ok(true)
        }
    }
}

impl ConsensusNode for MockNode {
    open spec fn block_new_result(&self, block: Block) -> Result<bool, NodeError> {
        self.spec_next_response()
    }

    open spec fn block_valid_result(&self, block_id: Seq<u8>) -> Result<bool, NodeError> {
        self.spec_next_response()
    }

    open spec fn block_invalid_result(&self, block_id: Seq<u8>) -> Result<bool, NodeError> {
        self.spec_next_response()
    }

    open spec fn block_commit_result(&self, block_id: Seq<u8>) -> Result<bool, NodeError> {
        self.spec_next_response()
    }

    fn on_block_new(&mut self, block: Block) -> (r: Result<bool, NodeError>) {
        self.calls.push(NodeCall::BlockNew(block));
        self.take_response()
    }

    fn on_block_valid(&mut self, block_id: Vec<u8>) -> (r: Result<bool, NodeError>) {
        self.calls.push(NodeCall::BlockValid(block_id));
        self.take_response()
    }

    fn on_block_invalid(&mut self, block_id: Vec<u8>) -> (r: Result<bool, NodeError>) {
        self.calls.push(NodeCall::BlockInvalid(block_id));
        self.take_response()
    }

    fn on_block_commit(&mut self, block_id: Vec<u8>) -> (r: Result<bool, NodeError>) {
        self.calls.push(NodeCall::BlockCommit(block_id));
        self.take_response()
    }

    fn on_peer_message(&mut self, message_type: &str, content_head: u8) {
        let tag = message_type.to_owned();
        self.calls.push(NodeCall::PeerMessage(tag, content_head));
    }

    fn on_peer_connected(&mut self, peer_id: Vec<u8>) {
        self.calls.push(NodeCall::PeerConnected(peer_id));
    }

    fn try_publish(&mut self) {
        self.calls.push(NodeCall::TryPublish);
    }
}

} // verus!
