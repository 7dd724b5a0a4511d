//! The worker-side entry point: a one-way state machine that registers
//! its receive callback once and then echoes every payload back to its
//! creator behind the main-side prefix.

use vstd::prelude::*;

use crate::protocol::tagged_from_main;
use crate::protocol::format_from_main;

verus! {

/// The worker's own state: uninitialized until its receive callback is
/// registered, listening from then on. There is no further transition
/// and no terminal state reachable from within the program.
pub struct WorkerContext {
    listening: bool,
}

impl WorkerContext {
    /// Whether the receive callback has been registered.
    pub closed spec fn is_listening(self) -> bool {
        self.listening
    }

    /// The state a worker starts in: not yet listening.
    pub fn start() -> (w: WorkerContext)
        ensures
            !w.is_listening(),
    {
        WorkerContext { listening: false }
    }

    /// Registers the receive callback: the one transition the worker
    /// ever makes.
    pub fn register(&mut self)
        ensures
            final(self).is_listening(),
    {
        self.listening = true;
    }

    /// Whether the receive callback has been registered, for callers
    /// that must not hand a message to an unregistered worker.
    pub fn listening(&self) -> (ready: bool)
        ensures
            ready == self.is_listening(),
    {
        self.listening
    }

    /// The receive callback: the reply to send back for a payload
    /// delivered from the main side, the payload verbatim behind the
    /// main-side prefix.
    pub fn handle_message(&self, payload: &str) -> (reply: String)
        requires
            self.is_listening(),
        ensures
            reply@ == tagged_from_main(payload@),
    {
        format_from_main(payload)
    }
}

} // verus!
