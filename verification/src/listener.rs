//! The accept loop that both paths run.

use vstd::prelude::*;

verus! {

/// What a listener meets when it waits.
#[derive(Clone, Copy, Debug, PartialEq, Eq, Structural)]
pub enum ListenerEvent {
    /// A connection was accepted.
    Accepted,
    /// Accepting failed.
    AcceptFailed,
    /// The stop signal fired.
    Cancelled,
}

/// What a listener does about it.
#[derive(Clone, Copy, Debug, PartialEq, Eq, Structural)]
pub enum ListenerAction {
    /// Hand the connection to a task of its own and accept on, without
    /// waiting for that task.
    Spawn,
    /// Note the failure and accept on.
    Ignore,
    /// Stop accepting and return. Connections already handed out run on.
    Stop,
}

/// What a listener does about an event.
pub open spec fn listener_action(event: ListenerEvent) -> ListenerAction {
    match event {
        ListenerEvent::Accepted => ListenerAction::Spawn,
        ListenerEvent::AcceptFailed => ListenerAction::Ignore,
        ListenerEvent::Cancelled => ListenerAction::Stop,
    }
}

/// Decides what a listener does next. Only the stop signal ends the loop:
/// a failed accept is passed over.
pub fn listener_step(event: ListenerEvent) -> (action: ListenerAction)
    ensures
        action == listener_action(event),
        action == ListenerAction::Stop <==> event == ListenerEvent::Cancelled,
{
    match event {
        ListenerEvent::Accepted => ListenerAction::Spawn,
        ListenerEvent::AcceptFailed => ListenerAction::Ignore,
        ListenerEvent::Cancelled => ListenerAction::Stop,
    }
}

} // verus!
