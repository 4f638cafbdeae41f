//! The decisions that tie remote registration and deregistration to the
//! listener's life. The caller performs each action and reports back what
//! happened as the next event.
use vstd::prelude::*;

verus! {

/// How much of the work the listener takes on.
#[derive(Clone, Copy, Debug, PartialEq, Eq, Structural)]
pub enum Layer {
    /// No remote calls: the caller registers, serves and deregisters.
    Raw,
    /// Registers before handing out the routes and deregisters after the
    /// stop; the caller runs the server.
    Router,
    /// As `Router`, and also binds and runs the server in the background.
    Managed,
}

/// Where a listener is in its life.
#[derive(Clone, Copy, Debug, PartialEq, Eq, Structural)]
pub enum Phase {
    /// Nothing done yet.
    Start,
    /// Waiting for the remote registration call.
    Registering,
    /// Handed out; requests are served until the stop fires.
    Running,
    /// Waiting for the remote deregistration call.
    Deregistering,
    /// Settled after a stop.
    Done,
    /// Given up: registration or the server failed.
    Failed,
}

/// What happened since the last decision.
#[derive(Clone, Copy, Debug, PartialEq, Eq, Structural)]
pub enum Event {
    /// The caller asks for a listener.
    Begin,
    /// The remote registration call returned, successfully or not.
    Registered { ok: bool },
    /// The stop latch fired and the stop-future resolved.
    StopResolved,
    /// The background server failed to bind or to run.
    ServerFailed,
    /// The remote deregistration call returned, successfully or not.
    Deregistered { ok: bool },
}

/// What the caller is to do next.
#[derive(Clone, Copy, Debug, PartialEq, Eq, Structural)]
pub enum Action {
    /// Nothing.
    Idle,
    /// Call the remote API to register the webhook.
    Register,
    /// Hand the listener to the caller.
    ReturnListener,
    /// Start the server in the background, then hand the listener over.
    ServeAndReturn,
    /// Report the registration error to the caller; start no server.
    ReturnError,
    /// Call the remote API to deregister the webhook.
    Deregister,
    /// Log that deregistration failed; nothing is escalated.
    LogDeregisterFailure,
    /// Fire the stop latch and treat the server failure as fatal.
    StopAndAbort,
}

/// The decision for `event` in `phase`, for a listener of `layer`.
pub open spec fn next_step(layer: Layer, phase: Phase, event: Event) -> (Phase, Action) {
    match (phase, event) {
        (Phase::Start, Event::Begin) => if layer == Layer::Raw {
            (Phase::Running, Action::ReturnListener)
        } else {
            (Phase::Registering, Action::Register)
        },
        (Phase::Registering, Event::Registered { ok }) => if !ok {
            (Phase::Failed, Action::ReturnError)
        } else if layer == Layer::Managed {
            (Phase::Running, Action::ServeAndReturn)
        } else {
            (Phase::Running, Action::ReturnListener)
        },
        (Phase::Running, Event::StopResolved) => if layer == Layer::Raw {
            (Phase::Done, Action::Idle)
        } else {
            (Phase::Deregistering, Action::Deregister)
        },
        (Phase::Running, Event::ServerFailed) => if layer == Layer::Managed {
            (Phase::Failed, Action::StopAndAbort)
        } else {
            (phase, Action::Idle)
        },
        (Phase::Deregistering, Event::Deregistered { ok }) => if ok {
            (Phase::Done, Action::Idle)
        } else {
            (Phase::Done, Action::LogDeregisterFailure)
        },
        _ => (phase, Action::Idle),
    }
}

/// Decides what follows `event` in `phase`.
pub fn step(layer: Layer, phase: Phase, event: Event) -> (r: (Phase, Action))
    ensures
        r == next_step(layer, phase, event),
{
    match (phase, event) {
        (Phase::Start, Event::Begin) => {
            if layer == Layer::Raw {
                (Phase::Running, Action::ReturnListener)
            } else {
                (Phase::Registering, Action::Register)
            }
        },
        (Phase::Registering, Event::Registered { ok }) => {
            if !ok {
                (Phase::Failed, Action::ReturnError)
            } else if layer == Layer::Managed {
                (Phase::Running, Action::ServeAndReturn)
            } else {
                (Phase::Running, Action::ReturnListener)
            }
        },
        (Phase::Running, Event::StopResolved) => {
            if layer == Layer::Raw {
                (Phase::Done, Action::Idle)
            } else {
                (Phase::Deregistering, Action::Deregister)
            }
        },
        (Phase::Running, Event::ServerFailed) => {
            if layer == Layer::Managed {
                (Phase::Failed, Action::StopAndAbort)
            } else {
                (phase, Action::Idle)
            }
        },
        (Phase::Deregistering, Event::Deregistered { ok }) => {
            if ok {
                (Phase::Done, Action::Idle)
            } else {
                (Phase::Done, Action::LogDeregisterFailure)
            }
        },
        _ => (phase, Action::Idle),
    }
}

/// A failed registration ends the listener before any server is started, a
/// failed deregistration is only logged and still settles as done, and a
/// settled or failed listener does nothing more, whatever happens.
pub proof fn lemma_failures_are_contained(layer: Layer, ok: bool, event: Event)
    ensures
        next_step(layer, Phase::Registering, Event::Registered { ok: false }) == (
            Phase::Failed,
            Action::ReturnError,
        ),
        next_step(layer, Phase::Deregistering, Event::Deregistered { ok }).0 == Phase::Done,
        next_step(layer, Phase::Failed, event) == (Phase::Failed, Action::Idle),
        next_step(layer, Phase::Done, event) == (Phase::Done, Action::Idle),
{
}

} // verus!
