//! The service connection's lifecycle discipline. A process owns exactly
//! one connection: the activation runtime is initialized and the service
//! object activated on open, and teardown must release the live handle
//! first and shut the runtime down second — the reverse order would release
//! a handle through a dead runtime. Each teardown step happens exactly
//! once, and nothing may be torn down twice.

use vstd::prelude::*;

verus! {

/// The stages one process's single connection passes through, in order.
#[derive(Debug, Clone, Copy, PartialEq, Eq, Structural)]
pub enum ConnectionPhase {
    /// The runtime is initialized and the service handle is live: the only
    /// stage in which service calls may be made.
    Open,
    /// The handle is released; the runtime still runs.
    HandleReleased,
    /// The runtime is shut down; nothing remains.
    ShutDown,
}

/// One teardown action.
#[derive(Debug, Clone, Copy, PartialEq, Eq, Structural)]
pub enum TeardownStep {
    /// Release the live service object handle.
    ReleaseHandle,
    /// Shut the activation runtime down.
    ShutDownRuntime,
}

/// The phase after one teardown action; `None` when the discipline forbids
/// that action in that phase.
pub open spec fn spec_teardown(p: ConnectionPhase, s: TeardownStep) -> Option<ConnectionPhase> {
    match (p, s) {
        (ConnectionPhase::Open, TeardownStep::ReleaseHandle) => Some(
            ConnectionPhase::HandleReleased,
        ),
        (ConnectionPhase::HandleReleased, TeardownStep::ShutDownRuntime) => Some(
            ConnectionPhase::ShutDown,
        ),
        _ => None,
    }
}

impl ConnectionPhase {
    /// Whether a service operation (enumeration, get, set) may still be
    /// made: only while the connection is open; no use after close.
    pub fn may_operate(&self) -> (r: bool)
        ensures
            r <==> *self is Open,
    {
        matches!(self, ConnectionPhase::Open)
    }

    /// Records one teardown action; only the single action the phase owes
    /// next is accepted.
    pub fn teardown(self, s: TeardownStep) -> (next: ConnectionPhase)
        requires
            spec_teardown(self, s) is Some,
        ensures
            Some(next) == spec_teardown(self, s),
    {
        match self {
            ConnectionPhase::Open => ConnectionPhase::HandleReleased,
            _ => ConnectionPhase::ShutDown,
        }
    }
}

/// The phase an open connection reaches after a whole sequence of teardown
/// actions; `None` as soon as one action is out of order.
pub open spec fn run_teardown(p: ConnectionPhase, steps: Seq<TeardownStep>) -> Option<
    ConnectionPhase,
>
    decreases steps.len(),
{
    if steps.len() == 0 {
        Some(p)
    } else {
        match spec_teardown(p, steps[0]) {
            Some(q) => run_teardown(q, steps.skip(1)),
            None => None,
        }
    }
}

/// The teardown law: the one and only action sequence that takes an open
/// connection all the way down is the handle release followed by the
/// runtime shutdown — each exactly once, in that order.
pub proof fn lemma_teardown_order(steps: Seq<TeardownStep>)
    requires
        run_teardown(ConnectionPhase::Open, steps) == Some(ConnectionPhase::ShutDown),
    ensures
        steps =~= seq![TeardownStep::ReleaseHandle, TeardownStep::ShutDownRuntime],
{
    assert(steps.len() > 0);
    assert(steps[0] == TeardownStep::ReleaseHandle);
    let after_first = steps.skip(1);
    assert(run_teardown(ConnectionPhase::HandleReleased, after_first) == Some(
        ConnectionPhase::ShutDown,
    ));
    assert(after_first.len() > 0);
    assert(after_first[0] == TeardownStep::ShutDownRuntime);
    let after_second = after_first.skip(1);
    assert(run_teardown(ConnectionPhase::ShutDown, after_second) == Some(
        ConnectionPhase::ShutDown,
    ));
    if after_second.len() > 0 {
        assert(spec_teardown(ConnectionPhase::ShutDown, after_second[0]) is None);
        assert(false);
    }
    assert(steps.len() == 2);
    assert(steps[1] == after_first[0]);
}

} // verus!
