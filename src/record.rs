use vstd::prelude::*;
use std::time::SystemTime;
use crate::identity::{SpanIdentity, SAMPLED_FLAG};
use crate::sampler::SpanKind;

verus! {

#[verifier::external_type_specification]
#[verifier::external_body]
pub struct ExSystemTime(std::time::SystemTime);

/// Relies on std's `Clone` for SystemTime, which is `Copy`: the clone is
/// the same instant.
pub assume_specification[ <std::time::SystemTime as Clone>::clone ](t: &SystemTime) -> (r: SystemTime)
    ensures
        r == *t,
;

/// Relies on opentelemetry::time::now for the wall-clock time. Nothing is
/// promised of the value.
#[verifier::external_body]
pub(crate) fn now() -> (r: SystemTime) {
    opentelemetry::time::now()
}

/// The value of an attribute.
#[derive(Clone, Debug, PartialEq, Eq)]
pub enum AttributeValue {
    Bool(bool),
    I64(i64),
    Str(String),
}

/// A named attribute of a span.
#[derive(Clone, Debug, PartialEq, Eq)]
pub struct KeyValue {
    pub key: String,
    pub value: AttributeValue,
}

/// Something that happened during a span, and when.
#[derive(Clone, Debug, PartialEq, Eq)]
pub struct SpanEvent {
    pub name: String,
    pub timestamp: SystemTime,
}

/// The outcome of a span.
#[derive(Clone, Debug, PartialEq, Eq)]
pub enum Status {
    /// No outcome was set.
    Unset,
    /// The operation succeeded.
    Success,
    /// The operation failed, with a description.
    Error(String),
}

/// A finished span, frozen for export.
#[derive(Clone, Debug, PartialEq, Eq)]
pub struct SpanRecord {
    pub identity: SpanIdentity,
    /// Zero where the span has no parent.
    pub parent_span_id: u64,
    pub kind: SpanKind,
    pub name: String,
    pub start_time: SystemTime,
    pub end_time: SystemTime,
    /// At most one attribute for each key.
    pub attributes: Vec<KeyValue>,
    pub dropped_attributes_count: u32,
    pub events: Vec<SpanEvent>,
    pub links: Vec<SpanIdentity>,
    pub status: Status,
    /// The name of the instrumentation library that made the span.
    pub scope_name: String,
    /// The version of that library.
    pub scope_version: String,
}

/// A sampled local root span named "opentelemetry", with trace id and span
/// id 1, that runs from `start_time` to `end_time`.
pub fn test_export_span_data_at(start_time: SystemTime, end_time: SystemTime) -> (r: SpanRecord)
    ensures
        r.identity.trace_id == 1,
        r.identity.span_id == 1,
        r.identity.trace_flags == SAMPLED_FLAG,
        !r.identity.is_remote,
        r.identity.trace_state@.len() == 0,
        r.parent_span_id == 0,
        r.kind == SpanKind::Internal,
        r.name@ == "opentelemetry"@,
        r.start_time == start_time,
        r.end_time == end_time,
        r.attributes@.len() == 0,
        r.dropped_attributes_count == 0,
        r.events@.len() == 0,
        r.links@.len() == 0,
        r.status == Status::Unset,
        r.scope_name@.len() == 0,
        r.scope_version@.len() == 0,
{
    SpanRecord {
        identity: SpanIdentity::new(1, 1, SAMPLED_FLAG, false, String::new()),
        parent_span_id: 0,
        kind: SpanKind::Internal,
        name: String::from_str("opentelemetry"),
        start_time,
        end_time,
        attributes: Vec::new(),
        dropped_attributes_count: 0,
        events: Vec::new(),
        links: Vec::new(),
        status: Status::Unset,
        scope_name: String::new(),
        scope_version: String::new(),
    }
}

/// The record of `test_export_span_data_at`, between two readings of the
/// clock taken now.
pub fn new_test_export_span_data() -> (r: SpanRecord)
    ensures
        r.identity.trace_id == 1,
        r.identity.span_id == 1,
        r.identity.trace_flags == SAMPLED_FLAG,
        !r.identity.is_remote,
        r.identity.trace_state@.len() == 0,
        r.parent_span_id == 0,
        r.kind == SpanKind::Internal,
        r.name@ == "opentelemetry"@,
        r.attributes@.len() == 0,
        r.dropped_attributes_count == 0,
        r.events@.len() == 0,
        r.links@.len() == 0,
        r.status == Status::Unset,
        r.scope_name@.len() == 0,
        r.scope_version@.len() == 0,
{
    let start = now();
    let end = now();
    test_export_span_data_at(start, end)
}

} // verus!
