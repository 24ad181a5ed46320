//! The subscriber's view of one stream notification, and the content filter
//! that decides whether it is forwarded to the processor's queue.

use crate::strutil::contains_seq;
use crate::strutil::contains_str;
use vstd::prelude::*;

verus! {

/// One detected event: the transaction's signature text and its log lines,
/// created on stream receipt and consumed exactly once by the processor.
#[derive(Debug, Clone)]
pub struct LogMessage {
    pub signature: String,
    pub logs: Vec<String>,
}

/// The marker substring that a creation instruction leaves in a
/// transaction's log lines.
pub open spec fn creation_marker() -> Seq<char> {
    "Instruction: Create"@
}

/// True when some log line holds the creation marker.
pub open spec fn is_creation_event_spec(logs: Seq<Seq<char>>) -> bool {
    exists|i: int| 0 <= i < logs.len() && contains_seq(logs[i], creation_marker())
}

/// Whether the notification's log lines show a creation instruction. A
/// notification with zero log lines never matches.
pub fn is_creation_event(logs: &Vec<String>) -> (r: bool)
    ensures
        r == is_creation_event_spec(logs.deep_view()),
{
    let mut i: usize = 0;
    while i < logs.len()
        invariant
            i <= logs.len(),
            forall|k: int| 0 <= k < i ==> !contains_seq(logs.deep_view()[k], creation_marker()),
        decreases logs.len() - i,
    {
        assert(logs.deep_view()[i as int] == logs@[i as int]@);
        if contains_str(logs[i].as_str(), "Instruction: Create") {
            return true;
        }
        i = i + 1;
    }
    false
}

/// The subscriber's forwarding decision for one stream notification: the
/// event is handed on exactly when its log lines show a creation
/// instruction, unchanged; every other notification is discarded.
pub fn screen_notification(signature: String, logs: Vec<String>) -> (r: Option<LogMessage>)
    ensures
        r is Some <==> is_creation_event_spec(logs.deep_view()),
        r matches Some(m) ==> m.signature@ == signature@ && m.logs.deep_view() == logs.deep_view(),
{
    if is_creation_event(&logs) {
        Some(LogMessage { signature, logs })
    } else {
        None
    }
}

} // verus!
