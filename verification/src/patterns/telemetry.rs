use vstd::prelude::*;
use crate::domain::events::TraceId;
use crate::time_source::new_uuid_string;

verus! {

/// The identifiers that tie together the work done for one request.
#[derive(Debug, Clone)]
pub struct TraceContext {
    pub trace_id: TraceId,
    pub correlation_id: String,
}

impl TraceContext {
    /// A fresh trace id and a fresh correlation id (hyphenated UUIDs).
    pub fn new() -> (r: Self)
        ensures
            r.trace_id.0@.len() == 36,
            r.correlation_id@.len() == 36,
    {
        TraceContext { trace_id: TraceId::new(), correlation_id: new_uuid_string() }
    }
}

} // verus!
