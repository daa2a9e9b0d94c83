//! The edge event bridge: a single-slot mailbox between a hardware
//! interrupt and a cooperative control loop.
//!
//! The bridge is a two-state machine. It is *armed* while no edge is
//! outstanding; a hardware edge moves it to *pending*; the control
//! loop's wait consumes the pending notification and re-arms it. A
//! second edge while pending coalesces into the one already buffered —
//! the mailbox has capacity one, it is not a queue. The bridge never
//! raises an error: a wait that finds nothing is a normal, typed
//! outcome.
//!
//! The bridge is constructed once at start-up and passed explicitly to
//! both the interrupt registration and the control loop; it is never
//! ambient global state. [`EdgeEventBridge::produce_edge`] is the whole
//! of what the interrupt context does: constant time, no allocation, no
//! bus traffic. Blocking with a timeout is the caller's loop around
//! [`EdgeEventBridge::try_wait`], interleaved with its own delays; the
//! bridge itself never blocks.

use vstd::prelude::*;

verus! {

/// The two states of the bridge.
#[derive(Clone, Copy, Debug, PartialEq, Eq, Structural)]
pub enum BridgeState {
    /// No edge outstanding; the next edge will be buffered.
    Armed,
    /// Exactly one edge is buffered, waiting to be consumed.
    Pending,
}

/// What a wait found: the one buffered notification, or nothing before
/// the caller's deadline. Absence of an event is not an error.
#[derive(Clone, Copy, Debug, PartialEq, Eq, Structural)]
pub enum WaitOutcome {
    /// An edge had occurred since the last consumption.
    Event,
    /// No edge was buffered.
    Timeout,
}

/// The single-slot mailbox itself. It carries presence only, no
/// payload.
#[derive(Clone, Copy, Debug, PartialEq, Eq, Structural)]
pub struct EdgeEventBridge {
    /// Whether an edge is buffered.
    pub state: BridgeState,
}

impl EdgeEventBridge {
    /// The current state, for use in contracts.
    pub open spec fn state(&self) -> BridgeState {
        self.state
    }

    /// The state after a hardware edge: pending, from either state.
    pub open spec fn edge_step(self) -> EdgeEventBridge {
        EdgeEventBridge { state: BridgeState::Pending }
    }

    /// The state and outcome of one wait: a pending bridge yields the
    /// event and re-arms; an armed bridge yields a timeout and stays
    /// armed.
    pub open spec fn wait_step(self) -> (EdgeEventBridge, WaitOutcome) {
        match self.state {
            BridgeState::Pending => (
                EdgeEventBridge { state: BridgeState::Armed },
                WaitOutcome::Event,
            ),
            BridgeState::Armed => (self, WaitOutcome::Timeout),
        }
    }

    /// A fresh bridge, armed.
    pub fn new() -> (r: Self)
        ensures
            r.state() == BridgeState::Armed,
    {
        EdgeEventBridge { state: BridgeState::Armed }
    }

    /// Record a hardware edge. If one is already buffered, the new edge
    /// coalesces with it; nothing is ever queued beyond the one slot.
    pub fn produce_edge(&mut self)
        ensures
            *final(self) == old(self).edge_step(),
            final(self).state() == BridgeState::Pending,
    {
        self.state = BridgeState::Pending;
    }

    /// Consume the buffered notification if there is one. The caller's
    /// wait-with-timeout is a loop around this and its own delay; on
    /// deadline it reports the `Timeout` outcome this returns.
    pub fn try_wait(&mut self) -> (r: WaitOutcome)
        ensures
            (*final(self), r) == old(self).wait_step(),
            final(self).state() == BridgeState::Armed,
            r == WaitOutcome::Event <==> old(self).state() == BridgeState::Pending,
    {
        match self.state {
            BridgeState::Pending => {
                self.state = BridgeState::Armed;
                WaitOutcome::Event
            },
            BridgeState::Armed => WaitOutcome::Timeout,
        }
    }
}

/// One edge, then one wait: exactly one event comes out, and the bridge
/// is armed again.
pub proof fn lemma_edge_then_wait(b: EdgeEventBridge)
    ensures
        b.edge_step().wait_step() == (
            (EdgeEventBridge { state: BridgeState::Armed }),
            WaitOutcome::Event,
        ),
{
}

/// Two edges before any wait coalesce: the first wait yields exactly
/// one event, and a second wait right after it yields a timeout, not a
/// second event.
pub proof fn lemma_edges_coalesce(b: EdgeEventBridge)
    ensures
        b.edge_step().edge_step().wait_step().1 == WaitOutcome::Event,
        b.edge_step().edge_step().wait_step().0.wait_step().1 == WaitOutcome::Timeout,
{
}

/// A wait with no edge buffered yields a timeout and changes nothing.
pub proof fn lemma_wait_without_edge(b: EdgeEventBridge)
    requires
        b.state() == BridgeState::Armed,
    ensures
        b.wait_step() == (b, WaitOutcome::Timeout),
{
}

} // verus!
