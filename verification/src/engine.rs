//! The engine and its running loop, as a step-per-iteration state machine.
//!
//! One `step` is one iteration of the steady-state loop: dispatch the signal
//! that the bounded-timeout wait yielded, then — if still running — check
//! the publish ticker and propose when due, then decide whether a periodic
//! diagnostic snapshot is due. The caller performs the wait, reads the
//! clock, logs what the step reports, and repeats until the step stops.
//!
//! Exclusive access to the consensus state for dispatch-plus-tick is the
//! `&mut` borrow of the node across one `step` call.

use vstd::prelude::*;

use crate::dispatch::{
    continues_unconditionally, deliverable, handle_update, node_is_consulted, spec_dispatch,
    stops_unconditionally,
};
use crate::node::ConsensusNode;
use crate::ticker::{lemma_ticker_after_push, spec_fires, spec_tick, ticker_after, Ticker};
use crate::types::{Incoming, NodeError};

verus! {

/// Milliseconds between diagnostic state snapshots.
pub const LOG_INTERVAL_MILLIS: u64 = 5000;

/// Static configuration the engine is built from.
#[derive(Debug, Clone, PartialEq, Eq)]
pub struct PhaseQueenConfig {
    /// Minimum interval between block proposal attempts, in milliseconds.
    pub block_publishing_delay: u64,
}

/// The phase-queen consensus engine, as registered with the host: identity
/// strings plus the configuration its running loop starts from.
pub struct PhaseQueenEngine {
    pub config: PhaseQueenConfig,
}

/// The loop state of an engine that has finished initializing: the publish
/// ticker, the diagnostics cadence, and whether the loop is still running.
pub struct RunningEngine {
    pub publish_ticker: Ticker,
    pub last_log: u64,
    pub running: bool,
}

/// What one loop iteration did, for the caller to act on: whether to keep
/// looping, a recoverable dispatch error to log, whether a block proposal
/// attempt was made, and whether a diagnostic snapshot is due.
#[derive(Debug, Clone, PartialEq, Eq)]
pub struct StepReport {
    pub keep_running: bool,
    pub recoverable_error: Option<NodeError>,
    pub published: bool,
    pub emit_state_log: bool,
}

/// The timestamps of a scripted run, oldest first.
pub open spec fn script_times(script: Seq<(Incoming, u64)>) -> Seq<u64> {
    script.map_values(|p: (Incoming, u64)| p.1)
}

impl PhaseQueenEngine {
    pub fn new(config: PhaseQueenConfig) -> (e: PhaseQueenEngine)
        ensures
            e.config == config,
    {
        PhaseQueenEngine { config }
    }

    /// The engine's protocol version string.
    pub fn version(&self) -> (v: String)
        ensures
            v@ == "0.1"@,
    {
        "0.1".to_owned()
    }

    /// The engine's protocol name.
    pub fn name(&self) -> (n: String)
        ensures
            n@ == "Devmode"@,
    {
        "Devmode".to_owned()
    }

    /// Additional protocol name/version pairs: none.
    pub fn additional_protocols(&self) -> (p: Vec<(String, String)>)
        ensures
            p@ == Seq::<(String, String)>::empty(),
    {
        Vec::new()
    }

    /// Enters the running state at time `now`, after startup: the publish
    /// ticker and the diagnostics cadence behave as if they had fired at
    /// `now`.
    pub fn start_running(&self, now: u64) -> (e: RunningEngine)
        ensures
            e.running,
            e.publish_ticker.delay == self.config.block_publishing_delay,
            e.publish_ticker.last == now,
            e.last_log == now,
    {
        RunningEngine {
            publish_ticker: Ticker::new(self.config.block_publishing_delay, now),
            last_log: now,
            running: true,
        }
    }
}

impl RunningEngine {
    /// One iteration of the running loop at time `now`.
    ///
    /// The signal is dispatched per the routing table. An `Ok(false)`
    /// outcome stops the loop at once: the ticker is not checked and
    /// nothing further touches the node. Otherwise the loop keeps running,
    /// a recoverable error is handed back for logging, the publish ticker
    /// is checked (invoking the node's proposal attempt exactly when it
    /// fires), and a diagnostic snapshot is due when more than
    /// `LOG_INTERVAL_MILLIS` has passed since the previous one.
    pub fn step<N: ConsensusNode>(&mut self, node: &mut N, incoming: Incoming, now: u64) -> (r:
        StepReport)
        requires
            old(self).running,
            deliverable(incoming),
        ensures
            final(self).running == (spec_dispatch(*old(node), incoming) != Result::<
                bool,
                NodeError,
            >::Ok(false)),
            r.keep_running == final(self).running,
            r.recoverable_error == (match spec_dispatch(*old(node), incoming) {
                Result::Err(e) => Some(e),
                _ => None::<NodeError>,
            }),
            r.published == (final(self).running && spec_fires(old(self).publish_ticker, now)),
            final(self).publish_ticker == (if final(self).running {
                spec_tick(old(self).publish_ticker, now)
            } else {
                old(self).publish_ticker
            }),
            r.emit_state_log == (final(self).running && now as int - old(self).last_log as int
                > LOG_INTERVAL_MILLIS as int),
            final(self).last_log == (if r.emit_state_log {
                now
            } else {
                old(self).last_log
            }),
            !node_is_consulted(incoming) && !r.published ==> *final(node) == *old(node),
    {
        let outcome = handle_update(node, incoming);
        let mut recoverable_error: Option<NodeError> = None;
        match outcome {
            Ok(again) => {
                if !again {
                    self.running = false;
                    return StepReport {
                        keep_running: false,
                        recoverable_error: None,
                        published: false,
                        emit_state_log: false,
                    };
                }
            },
            Err(e) => {
                recoverable_error = Some(e);
            },
        }
        let published = self.publish_ticker.tick(now);
        if published {
            node.try_publish();
        }
        let emit_state_log = if now > self.last_log {
            now - self.last_log > LOG_INTERVAL_MILLIS
        } else {
            false
        };
        if emit_state_log {
            self.last_log = now;
        }
        StepReport { keep_running: true, recoverable_error, published, emit_state_log }
    }

    /// Runs the loop over a finite script of signals with their timestamps,
    /// oldest first, until the script is exhausted or a step stops the
    /// loop.
    ///
    /// A script whose last signal stops unconditionally (a shutdown, a peer
    /// disconnect, a closed channel) always leaves the loop terminated; a
    /// script of signals that continue unconditionally (timeouts, peer
    /// messages, peer connects) never stops it, and then every signal is
    /// processed and the publish ticker has seen every timestamp in order.
    pub fn run_script<N: ConsensusNode>(&mut self, node: &mut N, script: Vec<(Incoming, u64)>) -> (reports: Vec<
        StepReport,
    >)
        requires
            old(self).running,
            forall|i: int| 0 <= i < script@.len() ==> deliverable(#[trigger] script@[i].0),
        ensures
            reports@.len() <= script@.len(),
            final(self).running ==> reports@.len() == script@.len(),
            forall|i: int|
                0 <= i < script@.len() && stops_unconditionally(#[trigger] script@[i].0)
                    ==> !final(self).running && reports@.len() <= i + 1,
            (forall|i: int|
                0 <= i < script@.len() ==> continues_unconditionally(#[trigger] script@[i].0))
                ==> final(self).running,
            final(self).running ==> final(self).publish_ticker == ticker_after(
                old(self).publish_ticker,
                script_times(script@),
            ),
            (forall|i: int|
                0 <= i < script@.len() ==> continues_unconditionally(#[trigger] script@[i].0))
                ==> forall|j: int|
                0 <= j < reports@.len() ==> (#[trigger] reports@[j].published) == spec_fires(
                    ticker_after(old(self).publish_ticker, script_times(script@).take(j)),
                    script_times(script@)[j],
                ),
    {
        let ghost orig = script@;
        let ghost t0 = self.publish_ticker;
        let mut script = script;
        let mut reports: Vec<StepReport> = Vec::new();
        proof {
            assert(script_times(orig).take(0) =~= Seq::<u64>::empty());
        }
        while self.running && script.len() > 0
            invariant
                reports@.len() + script@.len() == orig.len(),
                script@ =~= orig.subrange(orig.len() - script@.len(), orig.len() as int),
                forall|i: int| 0 <= i < orig.len() ==> deliverable(#[trigger] orig[i].0),
                self.running ==> self.publish_ticker == ticker_after(
                    t0,
                    script_times(orig).take(orig.len() - script@.len()),
                ),
                self.running && reports@.len() > 0 ==> !stops_unconditionally(
                    orig[reports@.len() - 1].0,
                ),
                forall|j: int|
                    0 <= j < reports@.len() - 1 ==> !stops_unconditionally(
                        (#[trigger] orig[j]).0,
                    ),
                (forall|i: int|
                    0 <= i < orig.len() ==> continues_unconditionally(#[trigger] orig[i].0))
                    ==> self.running,
                (forall|i: int|
                    0 <= i < orig.len() ==> continues_unconditionally(#[trigger] orig[i].0))
                    ==> forall|j: int|
                    0 <= j < reports@.len() ==> (#[trigger] reports@[j].published) == spec_fires(
                        ticker_after(t0, script_times(orig).take(j)),
                        script_times(orig)[j],
                    ),
            decreases script@.len(),
        {
            let ghost done = reports@.len() as int;
            let pair = script.remove(0);
            proof {
                assert(pair == orig[done]);
            }
            let ghost pre_ticker = self.publish_ticker;
            let rep = self.step(node, pair.0, pair.1);
            reports.push(rep);
            proof {
                if self.running {
                    assert(script_times(orig)[done] == orig[done].1);
                    lemma_ticker_after_push(t0, script_times(orig).take(done), orig[done].1);
                    assert(script_times(orig).take(done + 1) =~= script_times(orig).take(
                        done,
                    ).push(script_times(orig)[done]));
                }
                if forall|i: int|
                    0 <= i < orig.len() ==> continues_unconditionally(#[trigger] orig[i].0) {
                    assert(continues_unconditionally(orig[done].0));
                    assert(self.running);
                    assert(script_times(orig)[done] == orig[done].1);
                    assert(pre_ticker == ticker_after(t0, script_times(orig).take(done)));
                    assert(rep.published == spec_fires(pre_ticker, orig[done].1));
                }
            }
        }
        proof {
            if self.running {
                assert(script@.len() == 0);
                assert(script_times(orig).take(orig.len() as int) =~= script_times(orig));
            }
        }
        reports
    }
}

} // verus!
