//! The teardown protocol of a stack-resident worker. The worker holds its
//! bytes on its own stack and waits at a two-party rendezvous; the host
//! thread that owns the handle drives the steps these functions decide.

use vstd::prelude::*;

verus! {

/// Where a worker stands, as its controller sees it.
#[derive(Clone, Copy, Debug, PartialEq, Eq, Structural)]
pub enum WorkerPhase {
    /// The rendezvous exists; the thread has not been started.
    Created,
    /// The thread runs, holding its bytes, blocked at the rendezvous.
    Running,
    /// The controller has arrived at the rendezvous; the worker returns.
    Unwinding,
    /// The thread has been joined.
    Terminated,
}

/// What happened to a worker.
#[derive(Clone, Copy, Debug, PartialEq, Eq, Structural)]
pub enum WorkerEvent {
    /// The thread was started.
    Spawned,
    /// The controller arrived at the rendezvous, releasing the worker.
    Released,
    /// Joining the thread completed.
    Joined,
}

/// The controller's next action while tearing a worker down.
#[derive(Clone, Copy, Debug, PartialEq, Eq, Structural)]
pub enum TeardownStep {
    /// Arrive at the rendezvous.
    Rendezvous,
    /// Wait for the thread to end.
    Join,
}

/// The phase after an event, or `None` where the event cannot happen then.
pub open spec fn spec_next_phase(p: WorkerPhase, e: WorkerEvent) -> Option<WorkerPhase> {
    match (p, e) {
        (WorkerPhase::Created, WorkerEvent::Spawned) => Some(WorkerPhase::Running),
        (WorkerPhase::Running, WorkerEvent::Released) => Some(WorkerPhase::Unwinding),
        (WorkerPhase::Unwinding, WorkerEvent::Joined) => Some(WorkerPhase::Terminated),
        _ => None,
    }
}

/// The step the controller takes in a phase; `None` once nothing is left.
pub open spec fn spec_teardown_step(p: WorkerPhase) -> Option<TeardownStep> {
    match p {
        WorkerPhase::Running => Some(TeardownStep::Rendezvous),
        WorkerPhase::Unwinding => Some(TeardownStep::Join),
        _ => None,
    }
}

/// The event that a completed step amounts to.
pub open spec fn spec_event_of(s: TeardownStep) -> WorkerEvent {
    match s {
        TeardownStep::Rendezvous => WorkerEvent::Released,
        TeardownStep::Join => WorkerEvent::Joined,
    }
}

/// The phase after an event; `None` where the event cannot happen then,
/// which the controller treats as a broken invariant.
pub fn next_phase(p: WorkerPhase, e: WorkerEvent) -> (r: Option<WorkerPhase>)
    ensures
        r == spec_next_phase(p, e),
{
    match (p, e) {
        (WorkerPhase::Created, WorkerEvent::Spawned) => Some(WorkerPhase::Running),
        (WorkerPhase::Running, WorkerEvent::Released) => Some(WorkerPhase::Unwinding),
        (WorkerPhase::Unwinding, WorkerEvent::Joined) => Some(WorkerPhase::Terminated),
        _ => None,
    }
}

/// The controller's next step: release a running worker, then join it.
/// Teardown is over exactly when nothing is left, which a started worker
/// reaches only by being joined.
pub fn teardown_step(p: WorkerPhase) -> (r: Option<TeardownStep>)
    ensures
        r == spec_teardown_step(p),
        p is Running ==> r == Some(TeardownStep::Rendezvous),
        p is Unwinding ==> r == Some(TeardownStep::Join),
{
    match p {
        WorkerPhase::Running => Some(TeardownStep::Rendezvous),
        WorkerPhase::Unwinding => Some(TeardownStep::Join),
        _ => None,
    }
}

/// The event that a completed step amounts to.
pub fn event_of(s: TeardownStep) -> (r: WorkerEvent)
    ensures
        r == spec_event_of(s),
{
    match s {
        TeardownStep::Rendezvous => WorkerEvent::Released,
        TeardownStep::Join => WorkerEvent::Joined,
    }
}

/// The phase after the controller completes one teardown step.
pub open spec fn after_step(p: WorkerPhase) -> Option<WorkerPhase> {
    match spec_teardown_step(p) {
        Some(s) => spec_next_phase(p, spec_event_of(s)),
        None => None,
    }
}

/// Tearing down a running worker takes exactly two steps, the release and then
/// the join, and ends with the thread joined: once teardown reports nothing
/// left to do, no thread of that worker is alive.
pub proof fn lemma_release_then_join()
    ensures
        spec_teardown_step(WorkerPhase::Running) == Some(TeardownStep::Rendezvous),
        after_step(WorkerPhase::Running) == Some(WorkerPhase::Unwinding),
        spec_teardown_step(WorkerPhase::Unwinding) == Some(TeardownStep::Join),
        after_step(WorkerPhase::Unwinding) == Some(WorkerPhase::Terminated),
        spec_teardown_step(WorkerPhase::Terminated) is None,
{
}

/// Every step a teardown takes is accepted by the protocol, and teardown is
/// done in a started worker's phases only once it has been joined.
pub proof fn lemma_teardown_steps_are_valid(p: WorkerPhase)
    requires
        !(p is Created),
    ensures
        spec_teardown_step(p) is None <==> p is Terminated,
        spec_teardown_step(p) is Some ==> after_step(p) is Some,
{
}

} // verus!
