//! Pipeline-level configuration values the decoding layer depends on: the
//! event-layout namespace and the category of event a decoder produces.

use crate::event::{ContentsView, LogEvent, Value};
use vstd::prelude::*;

verus! {

/// The two event-layout conventions a pipeline can run under. A single
/// pipeline instance uses one namespace consistently for both its schema
/// queries and its decode calls.
#[derive(Debug, Clone, Copy, PartialEq, Eq)]
pub enum LogNamespace {
    /// The modern convention: a decoded payload becomes the event's root
    /// value, and per-namespace metadata lives outside the payload.
    Vector,
    /// The historical convention: a decoded payload is inserted as a field
    /// under the configured message key of an otherwise empty event.
    Legacy,
}

impl LogNamespace {
    /// Constructs a log event carrying `value` by this namespace's own
    /// construction rule: the modern namespace places the value at the event
    /// root. The legacy namespace builds its events by field insertion
    /// instead and has no root-value rule.
    pub fn new_log_from_data(self, value: Value) -> (log: LogEvent)
        requires
            self is Vector,
        ensures
            log@ == ContentsView::Root(value@),
    {
        LogEvent::from_root_value(value)
    }
}

/// The high-level category of event a decoder declares it produces, used to
/// reject incompatible pipeline wiring before any message flows.
#[derive(Debug, Clone, Copy, PartialEq, Eq)]
pub enum DataType {
    Log,
    Metric,
    Trace,
}

} // verus!
