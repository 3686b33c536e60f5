use vstd::prelude::*;

verus! {

/// The bit of the trace flags that marks a span as sampled.
pub const SAMPLED_FLAG: u8 = 1;

/// The immutable identity of a span: it travels with the span whatever
/// becomes of the span's recording.
#[derive(Debug, PartialEq, Eq)]
pub struct SpanIdentity {
    pub trace_id: u128,
    pub span_id: u64,
    pub trace_flags: u8,
    pub is_remote: bool,
    pub trace_state: String,
}

impl SpanIdentity {
    /// An all-zero trace id or span id is the reserved invalid sentinel.
    pub open spec fn valid_spec(&self) -> bool {
        self.trace_id != 0 && self.span_id != 0
    }

    pub open spec fn sampled_spec(&self) -> bool {
        self.trace_flags & SAMPLED_FLAG != 0
    }

    pub fn new(trace_id: u128, span_id: u64, trace_flags: u8, is_remote: bool, trace_state: String) -> (r: Self)
        ensures
            r.trace_id == trace_id,
            r.span_id == span_id,
            r.trace_flags == trace_flags,
            r.is_remote == is_remote,
            r.trace_state@ == trace_state@,
    {
        SpanIdentity { trace_id, span_id, trace_flags, is_remote, trace_state }
    }

    /// The invalid identity: zero ids, no flags, local, empty trace state.
    pub fn invalid() -> (r: Self)
        ensures
            r.trace_id == 0,
            r.span_id == 0,
            r.trace_flags == 0,
            !r.is_remote,
            r.trace_state@.len() == 0,
            !r.valid_spec(),
            !r.sampled_spec(),
    {
        proof {
            assert(0u8 & SAMPLED_FLAG == 0) by (bit_vector);
        }
        SpanIdentity { trace_id: 0, span_id: 0, trace_flags: 0, is_remote: false, trace_state: String::new() }
    }

    pub fn is_valid(&self) -> (r: bool)
        ensures
            r == self.valid_spec(),
    {
        self.trace_id != 0 && self.span_id != 0
    }

    pub fn is_sampled(&self) -> (r: bool)
        ensures
            r == self.sampled_spec(),
    {
        self.trace_flags & SAMPLED_FLAG != 0
    }

    pub fn is_remote(&self) -> (r: bool)
        ensures
            r == self.is_remote,
    {
        self.is_remote
    }

    /// The same identity, marked as received from a remote peer.
    pub fn into_remote(self) -> (r: Self)
        ensures
            r == (SpanIdentity { is_remote: true, ..self }),
    {
        SpanIdentity { is_remote: true, ..self }
    }
}

impl Clone for SpanIdentity {
    fn clone(&self) -> (r: Self)
        ensures
            r == *self,
    {
        SpanIdentity {
            trace_id: self.trace_id,
            span_id: self.span_id,
            trace_flags: self.trace_flags,
            is_remote: self.is_remote,
            trace_state: self.trace_state.clone(),
        }
    }
}

} // verus!
