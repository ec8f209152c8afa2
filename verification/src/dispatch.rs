//! The event-dispatch decision: what the blocking session-message loop does
//! with each retrieved event. Shutdown-worthy events go to the shutdown
//! coordinator; everything else is forwarded unchanged so the host OS keeps
//! treating the process as a well-behaved session participant.

use vstd::prelude::*;

verus! {

/// The numeric identifier of a window-close message.
pub const CLOSE_MESSAGE: u32 = 16;

/// The numeric identifier of a quit-queue message.
pub const QUIT_MESSAGE: u32 = 18;

/// One session-level notification retrieved from the host's message queue.
pub enum SessionEvent {
    /// Retrieval reported that the queue is closing: no further messages.
    QueueClosed,
    /// An ordinary message, by its numeric identifier.
    Message { id: u32 },
}

/// What the dispatch loop does with one event.
pub enum DispatchAction {
    /// Invoke the shutdown coordinator.
    Shutdown,
    /// Dispatch the message onward unchanged.
    Forward,
}

/// The dispatch rule: a closing queue, a window-close message and a
/// quit-queue message request shutdown; every other message is forwarded.
pub open spec fn spec_dispatch(e: SessionEvent) -> DispatchAction {
    match e {
        SessionEvent::QueueClosed => DispatchAction::Shutdown,
        SessionEvent::Message { id } => if id == CLOSE_MESSAGE || id == QUIT_MESSAGE {
            DispatchAction::Shutdown
        } else {
            DispatchAction::Forward
        },
    }
}

/// Decide what the dispatch loop does with one retrieved event.
pub fn dispatch_decision(e: &SessionEvent) -> (a: DispatchAction)
    ensures
        a == spec_dispatch(*e),
{
    match e {
        SessionEvent::QueueClosed => DispatchAction::Shutdown,
        SessionEvent::Message { id } => {
            if *id == CLOSE_MESSAGE || *id == QUIT_MESSAGE {
                DispatchAction::Shutdown
            } else {
                DispatchAction::Forward
            }
        },
    }
}

} // verus!
