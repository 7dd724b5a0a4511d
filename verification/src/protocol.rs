//! The wire format of the relay: untyped text in both directions, each
//! message tagged with a fixed human-readable prefix naming its origin.

use vstd::prelude::*;

verus! {

/// The prefix carried by every message the main (UI) side sends, and by
/// every reply the worker sends back.
pub open spec fn from_main_prefix() -> Seq<char> {
    "Message from main: "@
}

/// The prefix carried by every entry the main side appends to its log
/// when a payload arrives from the worker.
pub open spec fn from_worker_prefix() -> Seq<char> {
    "Message from worker: "@
}

/// The text of a message carrying `payload` out of the main side.
pub open spec fn tagged_from_main(payload: Seq<char>) -> Seq<char> {
    from_main_prefix() + payload
}

/// The text of a log entry recording `payload` as received from the worker.
pub open spec fn tagged_from_worker(payload: Seq<char>) -> Seq<char> {
    from_worker_prefix() + payload
}

/// Formats the message the main side sends for a given payload: the
/// payload verbatim, behind the main-side prefix.
pub fn format_from_main(payload: &str) -> (msg: String)
    ensures
        msg@ == tagged_from_main(payload@),
{
    let mut msg = String::from_str("Message from main: ");
    msg.append(payload);
    msg
}

/// Formats the log entry recording a payload received from the worker:
/// the payload verbatim, behind the worker-side prefix.
pub fn format_from_worker(payload: &str) -> (entry: String)
    ensures
        entry@ == tagged_from_worker(payload@),
{
    let mut entry = String::from_str("Message from worker: ");
    entry.append(payload);
    entry
}

/// Tagging alters nothing of the payload: dropping the prefix from a
/// tagged message gives the payload back, character for character.
pub proof fn lemma_tagging_keeps_payload(payload: Seq<char>)
    ensures
        tagged_from_main(payload).subrange(
            from_main_prefix().len() as int,
            tagged_from_main(payload).len() as int,
        ) =~= payload,
        tagged_from_worker(payload).subrange(
            from_worker_prefix().len() as int,
            tagged_from_worker(payload).len() as int,
        ) =~= payload,
{
}

} // verus!
