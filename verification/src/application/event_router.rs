use vstd::prelude::*;
use crate::domain::events::{WorkflowEvent, topic_for, topic_spec};
use crate::domain::journal::{JournalEntry, JournalKind, kind_name};

verus! {

/// How an event is routed: the journal entry that records it (its payload
/// the event's JSON text) and the topic it is published on.
pub fn route(event: &WorkflowEvent, payload: String) -> (r: (JournalEntry, &'static str))
    ensures
        r.0.sequence is None,
        r.0.timestamp_ns == event.timestamp_ns,
        r.0.entry_type@ == kind_name(JournalKind::Event),
        r.0.payload == payload,
        r.0.checksum is None,
        r.1@ == topic_spec(event.event),
{
    (JournalEntry::new(JournalKind::Event, event.timestamp_ns, payload), topic_for(&event.event))
}

} // verus!
