//! Control loop of a phase-queen consensus engine.
//!
//! The crate models the event-driven orchestration of a pluggable
//! block-agreement engine: a rate-limited publish ticker, a classifier for
//! protocol message tags, a dispatcher that routes lifecycle events to the
//! consensus node, and the running loop that combines them.

pub mod dispatch;
pub mod engine;
pub mod message;
pub mod node;
pub mod render;
pub mod ticker;
pub mod types;

pub use engine::{PhaseQueenConfig, PhaseQueenEngine, RunningEngine, StepReport};
pub use message::PhaseQueenMessage;
pub use node::{ConsensusNode, MockNode, NodeCall};
pub use ticker::Ticker;
pub use types::{Block, Incoming, NodeError, PeerInfo, PeerMessage, PeerMessageHeader, Update};
