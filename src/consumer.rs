//! Decisions of the polling subscriber.
//!
//! The subscriber is `Stopped` until started and `Running` until stopped. The
//! poll loop reads the running flag once before each blocking receive and exits
//! when it is off; what it does with each receive is decided here too.
//!
//! A stop takes effect only when the loop next reads the flag, so a loop may
//! still be live, blocked in a receive, after `stop`. The state records that
//! loop, and a `start` in that window resumes it instead of asking for a
//! second one: at most one poll loop is ever live.
use vstd::prelude::*;
use crate::errors::{InfraResult, InfrastructureError};

verus! {

/// Pause, in milliseconds, after a broker-level receive error.
pub const RECEIVE_ERROR_PAUSE_MS: u64 = 1000;

/// What `start` asks of the caller.
#[derive(Debug, Clone, Copy, PartialEq, Eq, Structural)]
pub enum StartAction {
    /// No loop is live: spawn the one poll loop.
    SpawnPollLoop,
    /// The flag was off but the earlier loop has not left yet: it goes on
    /// polling, and nothing is spawned.
    Resume,
    /// The subscriber is already running: nothing changes.
    AlreadyRunning,
}

/// What the poll loop does at the top of an iteration.
#[derive(Debug, Clone, Copy, PartialEq, Eq, Structural)]
pub enum PollStep {
    /// Block on the next receive.
    Receive,
    /// Leave the loop.
    Exit,
}

/// What a receive gave back.
#[derive(Debug, Clone, Copy, PartialEq, Eq, Structural)]
pub enum ReceiveEvent {
    /// A message that carries a payload.
    Payload,
    /// A message without a payload.
    Empty,
    /// A broker-level error, not tied to one message.
    BrokerError,
}

/// What the poll loop does with a receive.
#[derive(Debug, Clone, Copy, PartialEq, Eq, Structural)]
pub enum ReceiveAction {
    /// Decode the payload and, when that succeeds, hand it to the handler.
    Decode,
    /// Go on to the next receive.
    Skip,
    /// Log, pause `RECEIVE_ERROR_PAUSE_MS`, then go on; without limit.
    PauseThenRetry,
}

/// The running flag of a subscriber, and whether its poll loop is live.
#[derive(Debug, Clone, Copy, PartialEq, Eq, Structural)]
pub struct ConsumerState {
    running: bool,
    loop_live: bool,
}

/// The model of a subscriber: whether it is meant to run, and whether a poll
/// loop is live (spawned and not yet left).
#[derive(Debug, Clone, Copy, PartialEq, Eq, Structural)]
pub struct ConsumerView {
    pub running: bool,
    pub loop_live: bool,
}

impl View for ConsumerState {
    type V = ConsumerView;

    closed spec fn view(&self) -> ConsumerView {
        ConsumerView { running: self.running, loop_live: self.loop_live }
    }
}

/// `start`: the flag goes on; a loop is asked for only when none is live.
pub open spec fn start_step(s: ConsumerView) -> (ConsumerView, StartAction) {
    if s.running {
        (s, StartAction::AlreadyRunning)
    } else if s.loop_live {
        (ConsumerView { running: true, ..s }, StartAction::Resume)
    } else {
        (ConsumerView { running: true, loop_live: true }, StartAction::SpawnPollLoop)
    }
}

/// `stop`: the flag goes off; a live loop stays live until it reads the flag.
pub open spec fn stop_step(s: ConsumerView) -> ConsumerView {
    ConsumerView { running: false, ..s }
}

/// The loop reads the flag: it goes on while the flag is on, else it leaves.
pub open spec fn poll_step_spec(s: ConsumerView) -> (ConsumerView, PollStep) {
    if s.running {
        (s, PollStep::Receive)
    } else {
        (ConsumerView { loop_live: false, ..s }, PollStep::Exit)
    }
}

impl ConsumerState {
    /// A subscriber that is not running and has no loop.
    pub fn new() -> (r: Self)
        ensures
            r@ == (ConsumerView { running: false, loop_live: false }),
    {
        ConsumerState { running: false, loop_live: false }
    }

    /// Whether the subscriber is meant to run.
    pub fn is_running(&self) -> (r: bool)
        ensures
            r == self@.running,
    {
        self.running
    }

    /// Whether a poll loop is live.
    pub fn has_live_loop(&self) -> (r: bool)
        ensures
            r == self@.loop_live,
    {
        self.loop_live
    }

    /// Turns the flag on; asks for a poll loop only when none is live.
    pub fn start(&mut self) -> (r: StartAction)
        ensures
            (final(self)@, r) == start_step(old(self)@),
    {
        if self.running {
            StartAction::AlreadyRunning
        } else if self.loop_live {
            self.running = true;
            StartAction::Resume
        } else {
            self.running = true;
            self.loop_live = true;
            StartAction::SpawnPollLoop
        }
    }

    /// Turns the flag off; a loop blocked in a receive leaves after it returns.
    pub fn stop(&mut self)
        ensures
            final(self)@ == stop_step(old(self)@),
    {
        self.running = false;
    }

    /// Healthy exactly when the subscriber is meant to run.
    pub fn health_check(&self) -> (r: InfraResult<()>)
        ensures
            r is Ok <==> self@.running,
            !self@.running ==> (r matches Err(InfrastructureError::Kafka(m)) && m@
                == "Consumer not running"@),
    {
        if self.running {
            Ok(())
        } else {
            Err(InfrastructureError::Kafka("Consumer not running".to_owned()))
        }
    }

    /// The top of a poll-loop iteration, called by the live loop; on `Exit`
    /// the loop is no longer live.
    pub fn poll_step(&mut self) -> (r: PollStep)
        ensures
            (final(self)@, r) == poll_step_spec(old(self)@),
    {
        if self.running {
            PollStep::Receive
        } else {
            self.loop_live = false;
            PollStep::Exit
        }
    }
}

/// What the poll loop does with what a receive gave back.
pub fn on_receive(event: ReceiveEvent) -> (r: ReceiveAction)
    ensures
        r == match event {
            ReceiveEvent::Payload => ReceiveAction::Decode,
            ReceiveEvent::Empty => ReceiveAction::Skip,
            ReceiveEvent::BrokerError => ReceiveAction::PauseThenRetry,
        },
{
    match event {
        ReceiveEvent::Payload => ReceiveAction::Decode,
        ReceiveEvent::Empty => ReceiveAction::Skip,
        ReceiveEvent::BrokerError => ReceiveAction::PauseThenRetry,
    }
}

/// A call made on a subscriber: `start`, `stop`, or the live loop's read of
/// the flag.
#[derive(Debug, Clone, Copy, PartialEq, Eq, Structural)]
pub enum ConsumerOp {
    Start,
    Stop,
    Poll,
}

/// One call: the new state, whether a loop was spawned, whether one left.
pub open spec fn op_step(s: ConsumerView, op: ConsumerOp) -> (ConsumerView, bool, bool) {
    match op {
        ConsumerOp::Start => {
            let (t, a) = start_step(s);
            (t, a == StartAction::SpawnPollLoop, false)
        },
        ConsumerOp::Stop => (stop_step(s), false, false),
        ConsumerOp::Poll => {
            let (t, p) = poll_step_spec(s);
            (t, false, p == PollStep::Exit)
        },
    }
}

/// Only a live loop reads the flag.
pub open spec fn valid_trace(s: ConsumerView, ops: Seq<ConsumerOp>) -> bool
    decreases ops.len(),
{
    ops.len() == 0 || ((ops[0] != ConsumerOp::Poll || s.loop_live) && valid_trace(
        op_step(s, ops[0]).0,
        ops.drop_first(),
    ))
}

/// The state after the calls `ops`.
pub open spec fn after_ops(s: ConsumerView, ops: Seq<ConsumerOp>) -> ConsumerView
    decreases ops.len(),
{
    if ops.len() == 0 {
        s
    } else {
        after_ops(op_step(s, ops[0]).0, ops.drop_first())
    }
}

/// Loops spawned minus loops that left, over the calls `ops`.
pub open spec fn net_loops(s: ConsumerView, ops: Seq<ConsumerOp>) -> int
    decreases ops.len(),
{
    if ops.len() == 0 {
        0
    } else {
        let (t, spawned, exited) = op_step(s, ops[0]);
        (if spawned { 1int } else { 0int }) - (if exited { 1int } else { 0int }) + net_loops(
            t,
            ops.drop_first(),
        )
    }
}

/// One while a loop is live, else zero.
pub open spec fn live_count(s: ConsumerView) -> int {
    if s.loop_live {
        1
    } else {
        0
    }
}

proof fn lemma_net_tracks_live(s: ConsumerView, ops: Seq<ConsumerOp>)
    requires
        valid_trace(s, ops),
    ensures
        net_loops(s, ops) == live_count(after_ops(s, ops)) - live_count(s),
    decreases ops.len(),
{
    if ops.len() > 0 {
        lemma_net_tracks_live(op_step(s, ops[0]).0, ops.drop_first());
    }
}

/// From a new subscriber, over any calls of `start`, `stop` and the live
/// loop's flag read, loops spawned minus loops that left is 0 or 1: never two
/// live poll loops, and it is 1 exactly while a loop is live.
pub proof fn lemma_at_most_one_loop(ops: Seq<ConsumerOp>)
    requires
        valid_trace(ConsumerView { running: false, loop_live: false }, ops),
    ensures
        ({
            let s0 = ConsumerView { running: false, loop_live: false };
            &&& 0 <= net_loops(s0, ops) <= 1
            &&& (net_loops(s0, ops) == 1 <==> after_ops(s0, ops).loop_live)
        }),
{
    lemma_net_tracks_live(ConsumerView { running: false, loop_live: false }, ops);
}

/// After `stop`, `start` turns the flag on again and polling resumes: the
/// live loop goes on, or a new one is asked for when none is live. `start`
/// while running changes nothing and asks for no second loop.
pub proof fn lemma_restart(s: ConsumerView)
    ensures
        start_step(stop_step(s)).0.running,
        start_step(stop_step(s)).0.loop_live,
        start_step(stop_step(s)).1 == (if s.loop_live {
            StartAction::Resume
        } else {
            StartAction::SpawnPollLoop
        }),
        poll_step_spec(start_step(stop_step(s)).0).1 == PollStep::Receive,
        s.running ==> start_step(s) == (s, StartAction::AlreadyRunning),
{
}

} // verus!
