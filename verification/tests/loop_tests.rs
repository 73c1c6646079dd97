use phase_queen::engine::{PhaseQueenConfig, PhaseQueenEngine};
use phase_queen::node::{MockNode, NodeCall};
use phase_queen::render::display_block;
use phase_queen::types::{
    Block, Incoming, NodeError, PeerInfo, PeerMessage, PeerMessageHeader, Update,
};

fn engine_with_delay(block_publishing_delay: u64) -> PhaseQueenEngine {
    PhaseQueenEngine::new(PhaseQueenConfig {
        block_publishing_delay,
    })
}

fn peer_message(tag: &str, content: Vec<u8>) -> Update {
    Update::PeerMessage(
        PeerMessage {
            header: PeerMessageHeader {
                message_type: tag.to_string(),
            },
            content,
        },
        vec![9],
    )
}

/// Startup with chain head (num = 0, id = []) and no peers; the first signal
/// is a timeout, and with a zero publish delay the node's proposal attempt
/// runs exactly once.
#[test]
fn scenario_fresh_startup_timeout_publishes_once() {
    let chain_head = Block {
        block_num: 0,
        block_id: vec![],
        previous_id: vec![],
    };
    assert_eq!(display_block(&chain_head), "Block(0, id: , prev: )");
    let peers: Vec<PeerInfo> = vec![];
    assert!(peers.is_empty());

    let engine = engine_with_delay(0);
    let mut running = engine.start_running(0);
    let mut node = MockNode::new(vec![]);

    let report = running.step(&mut node, Incoming::Timeout, 0);
    assert!(report.keep_running);
    assert!(report.published);
    assert_eq!(report.recoverable_error, None);
    assert!(running.running);
    assert_eq!(node.calls, vec![NodeCall::TryPublish]);
}

/// Peer connects, a block arrives, the peer disconnects: the node sees the
/// connect and the new block in order, then the loop stops on the
/// disconnect without another ticker check.
#[test]
fn scenario_peer_lifecycle_stops_on_disconnect() {
    let p1 = vec![0xaa, 0xbb];
    let b1 = Block {
        block_num: 1,
        block_id: vec![1],
        previous_id: vec![],
    };
    let engine = engine_with_delay(1_000_000);
    let mut running = engine.start_running(0);
    let mut node = MockNode::new(vec![Ok(true)]);

    let script = vec![
        (
            Incoming::Event(Update::PeerConnected(PeerInfo {
                peer_id: p1.clone(),
            })),
            1,
        ),
        (Incoming::Event(Update::BlockNew(b1.clone())), 2),
        (Incoming::Event(Update::PeerDisconnected(p1.clone())), 3),
    ];
    let reports = running.run_script(&mut node, script);

    assert_eq!(reports.len(), 3);
    assert!(reports[0].keep_running);
    assert!(reports[1].keep_running);
    assert!(!reports[2].keep_running);
    assert!(!running.running);
    assert!(!reports[2].published);
    // The publish ticker never fired and was not checked after the stop.
    assert_eq!(running.publish_ticker.last, 0);
    assert_eq!(
        node.calls,
        vec![
            NodeCall::PeerConnected(p1),
            NodeCall::BlockNew(b1),
        ]
    );
}

/// A peer message with a single content element and a queen-exchange tag:
/// the node receives that one element and the loop continues.
#[test]
fn scenario_queen_exchange_message_continues() {
    let engine = engine_with_delay(1_000_000);
    let mut running = engine.start_running(0);
    let mut node = MockNode::new(vec![]);

    let report = running.step(
        &mut node,
        Incoming::Event(peer_message("queen_exchange", vec![99])),
        1,
    );
    assert!(report.keep_running);
    assert!(running.running);
    assert_eq!(
        node.calls,
        vec![NodeCall::PeerMessage("queen_exchange".to_string(), 99)]
    );
}

/// A scripted stream ending in a shutdown terminates the loop after
/// processing it.
#[test]
fn shutdown_terminates_loop() {
    let engine = engine_with_delay(50);
    let mut running = engine.start_running(0);
    let mut node = MockNode::new(vec![]);

    let script = vec![
        (Incoming::Timeout, 10),
        (Incoming::Timeout, 20),
        (Incoming::Event(Update::Shutdown), 30),
    ];
    let reports = running.run_script(&mut node, script);
    assert_eq!(reports.len(), 3);
    assert!(!running.running);
    assert!(!reports[2].keep_running);
}

/// A closed event channel terminates the loop as well.
#[test]
fn disconnected_channel_terminates_loop() {
    let engine = engine_with_delay(50);
    let mut running = engine.start_running(0);
    let mut node = MockNode::new(vec![]);

    let reports = running.run_script(&mut node, vec![(Incoming::Disconnected, 5)]);
    assert_eq!(reports.len(), 1);
    assert!(!running.running);
}

/// A node answering `Ok(false)` to a block event stops the loop too.
#[test]
fn node_stop_answer_terminates_loop() {
    let engine = engine_with_delay(50);
    let mut running = engine.start_running(0);
    let mut node = MockNode::new(vec![Ok(false)]);

    let b = Block {
        block_num: 2,
        block_id: vec![2],
        previous_id: vec![1],
    };
    let script = vec![
        (Incoming::Event(Update::BlockNew(b)), 1),
        (Incoming::Timeout, 2),
    ];
    let reports = running.run_script(&mut node, script);
    assert_eq!(reports.len(), 1, "the loop stops before the second signal");
    assert!(!running.running);
}

/// A stream of only timeouts never terminates the loop, and the publish
/// ticker fires exactly when its delay has elapsed.
#[test]
fn timeouts_keep_loop_running_at_publish_cadence() {
    let engine = engine_with_delay(10);
    let mut running = engine.start_running(0);
    let mut node = MockNode::new(vec![]);

    let script = vec![
        (Incoming::Timeout, 4),
        (Incoming::Timeout, 10),
        (Incoming::Timeout, 14),
        (Incoming::Timeout, 20),
        (Incoming::Timeout, 21),
    ];
    let reports = running.run_script(&mut node, script);
    assert!(running.running, "timeouts never stop the loop");
    assert_eq!(reports.len(), 5);
    let published: Vec<bool> = reports.iter().map(|r| r.published).collect();
    assert_eq!(published, vec![false, true, false, true, false]);
    assert_eq!(node.calls, vec![NodeCall::TryPublish, NodeCall::TryPublish]);
    assert_eq!(running.publish_ticker.last, 20);
}

/// A recoverable dispatch error is reported for logging and the loop goes
/// on; the ticker is still checked in the same iteration.
#[test]
fn recoverable_error_continues_loop() {
    let engine = engine_with_delay(0);
    let mut running = engine.start_running(0);
    let mut node = MockNode::new(vec![Err(NodeError::BlockNotReady)]);

    let report = running.step(
        &mut node,
        Incoming::Event(Update::BlockValid(vec![7])),
        1,
    );
    assert!(report.keep_running);
    assert_eq!(report.recoverable_error, Some(NodeError::BlockNotReady));
    assert!(report.published);
    assert!(running.running);
    assert_eq!(
        node.calls,
        vec![NodeCall::BlockValid(vec![7]), NodeCall::TryPublish]
    );
}

/// The diagnostic snapshot is due when more than the log interval has
/// passed since the previous one.
#[test]
fn state_log_cadence() {
    let engine = engine_with_delay(1_000_000);
    let mut running = engine.start_running(0);
    let mut node = MockNode::new(vec![]);

    let r1 = running.step(&mut node, Incoming::Timeout, 5000);
    assert!(!r1.emit_state_log, "exactly the interval is not enough");
    let r2 = running.step(&mut node, Incoming::Timeout, 5001);
    assert!(r2.emit_state_log);
    let r3 = running.step(&mut node, Incoming::Timeout, 9000);
    assert!(!r3.emit_state_log, "cadence restarts after each snapshot");
    let r4 = running.step(&mut node, Incoming::Timeout, 10002);
    assert!(r4.emit_state_log);
}
