//! The main-side state: the current input text, the append-only log of
//! received messages, and the construct-once guard for the worker handle.

use vstd::prelude::*;

use crate::protocol::tagged_from_main;
use crate::protocol::tagged_from_worker;
use crate::protocol::format_from_main;
use crate::protocol::format_from_worker;

verus! {

/// The view-visible state of the UI: what the user has typed, every
/// message received so far in receipt order, and whether the background
/// worker has been constructed yet.
pub struct UiController {
    input: String,
    log: Vec<String>,
    worker_started: bool,
}

impl UiController {
    /// The current input text.
    pub closed spec fn input_view(self) -> Seq<char> {
        self.input@
    }

    /// The log of received messages, oldest first.
    pub closed spec fn log_view(self) -> Seq<Seq<char>> {
        self.log@.map_values(|entry: String| entry@)
    }

    /// Whether the worker handle has been constructed.
    pub closed spec fn started(self) -> bool {
        self.worker_started
    }

    /// A fresh controller: empty input, empty log, no worker yet.
    pub fn new() -> (c: UiController)
        ensures
            c.input_view() == Seq::<char>::empty(),
            c.log_view() =~= Seq::<Seq<char>>::empty(),
            !c.started(),
    {
        UiController { input: String::new(), log: Vec::new(), worker_started: false }
    }

    /// The construct-once guard, run on every render: reports whether the
    /// worker handle must be constructed now, which is true on the first
    /// render of this controller and on no later one.
    pub fn ensure_worker(&mut self) -> (construct: bool)
        ensures
            final(self).started(),
            construct == !old(self).started(),
            final(self).input_view() == old(self).input_view(),
            final(self).log_view() == old(self).log_view(),
    {
        let construct = !self.worker_started;
        self.worker_started = true;
        construct
    }

    /// Replaces the current input text with what the user typed; nothing
    /// else changes.
    pub fn set_input(&mut self, text: String)
        ensures
            final(self).input_view() == text@,
            final(self).log_view() == old(self).log_view(),
            final(self).started() == old(self).started(),
    {
        self.input = text;
    }

    /// The send click: builds the one outbound message for the current
    /// input text, the text verbatim behind the main-side prefix. The
    /// input is neither validated nor cleared; an empty input sends the
    /// bare prefix.
    pub fn send_message(&self) -> (msg: String)
        requires
            self.started(),
        ensures
            msg@ == tagged_from_main(self.input_view()),
    {
        format_from_main(self.input.as_str())
    }

    /// The receive callback: a payload delivered by the worker appends
    /// exactly one entry, the payload verbatim behind the worker-side
    /// prefix, after all prior entries; input and guard are untouched.
    pub fn receive_from_worker(&mut self, payload: &str)
        requires
            old(self).started(),
        ensures
            final(self).log_view() =~= old(self).log_view().push(tagged_from_worker(payload@)),
            final(self).input_view() == old(self).input_view(),
            final(self).started() == old(self).started(),
    {
        let entry = format_from_worker(payload);
        self.log.push(entry);
    }

    /// The current input text, for rendering.
    pub fn input_text(&self) -> (text: &String)
        ensures
            text@ == self.input_view(),
    {
        &self.input
    }

    /// The received messages, oldest first, for rendering.
    pub fn entries(&self) -> (entries: &Vec<String>)
        ensures
            entries@.map_values(|entry: String| entry@) == self.log_view(),
    {
        &self.log
    }

    /// Whether the worker handle has been constructed, for callers that
    /// must not send before it exists.
    pub fn worker_ready(&self) -> (ready: bool)
        ensures
            ready == self.started(),
    {
        self.worker_started
    }
}

/// The guard state after some number of renders of a fresh controller,
/// where every render runs `ensure_worker`: `new` leaves it unset, and
/// `ensure_worker` sets it, so it is unset only before the first render.
pub open spec fn started_after(renders: nat) -> bool {
    renders >= 1
}

/// How many of the first `renders` renders construct the worker handle,
/// when every render runs `ensure_worker`, which asks for construction
/// exactly when the guard was not yet set.
pub open spec fn constructions_among(renders: nat) -> nat
    decreases renders,
{
    if renders == 0 {
        0
    } else {
        constructions_among((renders - 1) as nat) + if started_after((renders - 1) as nat) {
            0nat
        } else {
            1nat
        }
    }
}

/// However many times the owning component renders, the worker handle and
/// its receive-callback registration are constructed exactly once: on the
/// first render, and on no later one.
pub proof fn lemma_worker_constructed_exactly_once(renders: nat)
    requires
        1 <= renders,
    ensures
        constructions_among(renders) == 1,
    decreases renders,
{
    if renders == 1 {
        assert(constructions_among(0) == 0);
    } else {
        lemma_worker_constructed_exactly_once((renders - 1) as nat);
    }
}

/// Replies delivered in order land in the log in that same order: after a
/// log receives `first` and then `second`, it ends with their two entries
/// in exactly that order, and every prior entry is unchanged in place.
pub proof fn lemma_replies_keep_send_order(
    log: Seq<Seq<char>>,
    first: Seq<char>,
    second: Seq<char>,
)
    ensures
        ({
            let after = log.push(tagged_from_worker(first)).push(tagged_from_worker(second));
            &&& after.len() == log.len() + 2
            &&& after[log.len() as int] == tagged_from_worker(first)
            &&& after[log.len() as int + 1] == tagged_from_worker(second)
            &&& after.subrange(0, log.len() as int) =~= log
        }),
{
}

} // verus!
