//! Pure routing of one incoming signal to exactly one state-transition call
//! on the consensus node.
//!
//! The routing is total: every update variant, the timeout signal and the
//! closed-channel signal map to one outcome. Block lifecycle events
//! propagate the node's own tri-state answer; peer messages and connects
//! always continue; a peer disconnect, an explicit shutdown and a closed
//! channel always stop the loop.

use vstd::prelude::*;

use crate::node::ConsensusNode;
use crate::types::{Incoming, NodeError, Update};

verus! {

/// The outcome dispatching `incoming` against a node in state `node`
/// produces: `Ok(true)` to continue, `Ok(false)` to stop, `Err` for a
/// recoverable failure. This is the full routing table.
pub open spec fn spec_dispatch<N: ConsensusNode>(node: N, incoming: Incoming) -> Result<
    bool,
    NodeError,
> {
    match incoming {
        Incoming::Event(Update::BlockNew(block)) => node.block_new_result(block),
        Incoming::Event(Update::BlockValid(block_id)) => node.block_valid_result(block_id@),
        Incoming::Event(Update::BlockInvalid(block_id)) => node.block_invalid_result(block_id@),
        Incoming::Event(Update::BlockCommit(block_id)) => node.block_commit_result(block_id@),
        Incoming::Event(Update::PeerMessage(_, _)) => Ok(true),
        Incoming::Event(Update::PeerConnected(_)) => Ok(true),
        Incoming::Event(Update::PeerDisconnected(_)) => Ok(false),
        Incoming::Event(Update::Shutdown) => Ok(false),
        Incoming::Timeout => Ok(true),
        Incoming::Disconnected => Ok(false),
    }
}

/// A signal the dispatcher may be handed: a peer message must carry at least
/// one content byte (the host contract guarantees non-empty content; an
/// empty list is a fail-fast condition, not a routable message).
pub open spec fn deliverable(incoming: Incoming) -> bool {
    match incoming {
        Incoming::Event(Update::PeerMessage(message, _)) => message.content@.len() > 0,
        _ => true,
    }
}

/// Whether dispatching `incoming` makes any call into the node at all.
pub open spec fn node_is_consulted(incoming: Incoming) -> bool {
    match incoming {
        Incoming::Event(Update::PeerDisconnected(_)) => false,
        Incoming::Event(Update::Shutdown) => false,
        Incoming::Timeout => false,
        Incoming::Disconnected => false,
        _ => true,
    }
}

/// Signals that stop the loop whatever the node would answer.
pub open spec fn stops_unconditionally(incoming: Incoming) -> bool {
    match incoming {
        Incoming::Event(Update::PeerDisconnected(_)) => true,
        Incoming::Event(Update::Shutdown) => true,
        Incoming::Disconnected => true,
        _ => false,
    }
}

/// Signals that continue the loop whatever the node would answer.
pub open spec fn continues_unconditionally(incoming: Incoming) -> bool {
    match incoming {
        Incoming::Event(Update::PeerMessage(_, _)) => true,
        Incoming::Event(Update::PeerConnected(_)) => true,
        Incoming::Timeout => true,
        _ => false,
    }
}

/// Dispatch is total: every signal, paired with every answer the node can
/// give, maps to exactly one row of the routing table. Block lifecycle
/// events propagate the node's tri-state answer unchanged; peer messages,
/// peer connects and timeouts continue whatever the node does; peer
/// disconnects, shutdown and a closed channel stop whatever the node does.
pub proof fn lemma_dispatch_routing<N: ConsensusNode>(node: N, incoming: Incoming)
    ensures
        (match incoming {
            Incoming::Event(Update::BlockNew(block)) => spec_dispatch(node, incoming)
                == node.block_new_result(block),
            Incoming::Event(Update::BlockValid(id)) => spec_dispatch(node, incoming)
                == node.block_valid_result(id@),
            Incoming::Event(Update::BlockInvalid(id)) => spec_dispatch(node, incoming)
                == node.block_invalid_result(id@),
            Incoming::Event(Update::BlockCommit(id)) => spec_dispatch(node, incoming)
                == node.block_commit_result(id@),
            Incoming::Event(Update::PeerMessage(_, _)) => spec_dispatch(node, incoming)
                == Result::<bool, NodeError>::Ok(true),
            Incoming::Event(Update::PeerConnected(_)) => spec_dispatch(node, incoming)
                == Result::<bool, NodeError>::Ok(true),
            Incoming::Event(Update::PeerDisconnected(_)) => spec_dispatch(node, incoming)
                == Result::<bool, NodeError>::Ok(false),
            Incoming::Event(Update::Shutdown) => spec_dispatch(node, incoming) == Result::<
                bool,
                NodeError,
            >::Ok(false),
            Incoming::Timeout => spec_dispatch(node, incoming) == Result::<bool, NodeError>::Ok(
                true,
            ),
            Incoming::Disconnected => spec_dispatch(node, incoming) == Result::<
                bool,
                NodeError,
            >::Ok(false),
        }),
        stops_unconditionally(incoming) ==> spec_dispatch(node, incoming) == Result::<
            bool,
            NodeError,
        >::Ok(false),
        continues_unconditionally(incoming) ==> spec_dispatch(node, incoming) == Result::<
            bool,
            NodeError,
        >::Ok(true),
{
}

/// The first item of a vector, if any.
pub fn first<T>(v: &Vec<T>) -> (r: Option<&T>)
    ensures
        (match r {
            Some(x) => v@.len() > 0 && *x == v@[0],
            None => v@.len() == 0,
        }),
{
    v.as_slice().first()
}

/// Routes one incoming signal per the routing table: block lifecycle events
/// go to the matching node transition and propagate its outcome; a peer
/// message forwards its tag and first content byte and continues; a peer
/// connect forwards the peer id and continues; a peer disconnect, a
/// shutdown and a closed channel stop; a timeout is a no-op.
///
/// When no call is routed into the node, the node is left untouched.
pub fn handle_update<N: ConsensusNode>(node: &mut N, incoming: Incoming) -> (r: Result<
    bool,
    NodeError,
>)
    requires
        deliverable(incoming),
    ensures
        r == spec_dispatch(*old(node), incoming),
        !node_is_consulted(incoming) ==> *final(node) == *old(node),
{
    match incoming {
        Incoming::Event(Update::BlockNew(block)) => node.on_block_new(block),
        Incoming::Event(Update::BlockValid(block_id)) => node.on_block_valid(block_id),
        Incoming::Event(Update::BlockInvalid(block_id)) => node.on_block_invalid(block_id),
        Incoming::Event(Update::BlockCommit(block_id)) => node.on_block_commit(block_id),
        Incoming::Event(Update::PeerMessage(message, _)) => {
            match first(&message.content) {
                Some(head) => {
                    node.on_peer_message(message.header.message_type.as_str(), *head);
                },
                None => {
                    proof {
                        assert(false);
                    }
                },
            }
            Ok(true)
        },
        Incoming::Event(Update::PeerConnected(info)) => {
            node.on_peer_connected(info.peer_id);
            Ok(true)
        },
        Incoming::Event(Update::PeerDisconnected(_)) => Ok(false),
        Incoming::Event(Update::Shutdown) => Ok(false),
        Incoming::Timeout => Ok(true),
        Incoming::Disconnected => Ok(false),
    }
}

} // verus!
