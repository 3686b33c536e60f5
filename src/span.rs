use vstd::prelude::*;
use crate::context::{ActiveSpan, Context};
use crate::identity::{SpanIdentity, SAMPLED_FLAG};
use crate::record::{now, AttributeValue, KeyValue, SpanEvent, SpanRecord, Status};
use crate::sampler::{Sampler, SamplingDecision, SpanKind};
use std::time::SystemTime;

verus! {

/// How many distinct attribute keys a span keeps unless told otherwise.
pub const DEFAULT_ATTRIBUTE_CAPACITY: usize = 128;

/// Some entry of `attrs` has key `key`.
pub open spec fn has_key(attrs: Seq<KeyValue>, key: Seq<char>) -> bool {
    exists|i: int| 0 <= i < attrs.len() && (#[trigger] attrs[i]).key@ == key
}

/// No two entries of `attrs` share a key.
pub open spec fn keys_unique(attrs: Seq<KeyValue>) -> bool {
    forall|i: int, j: int|
        0 <= i < j < attrs.len() ==> (#[trigger] attrs[i]).key@ != (#[trigger] attrs[j]).key@
}

/// A span in progress. Only its owner changes it, and ending it freezes it
/// into a `SpanRecord`.
pub struct SpanRecording {
    identity: SpanIdentity,
    recording: bool,
    parent_span_id: u64,
    kind: SpanKind,
    name: String,
    start_time: SystemTime,
    attributes: Vec<KeyValue>,
    attribute_capacity: usize,
    dropped_attributes_count: u32,
    events: Vec<SpanEvent>,
    links: Vec<SpanIdentity>,
    status: Status,
    scope_name: String,
    scope_version: String,
}

impl SpanRecording {
    pub closed spec fn identity_spec(&self) -> SpanIdentity {
        self.identity
    }

    pub closed spec fn recording_spec(&self) -> bool {
        self.recording
    }

    pub closed spec fn parent_span_id_spec(&self) -> u64 {
        self.parent_span_id
    }

    pub closed spec fn name_spec(&self) -> Seq<char> {
        self.name@
    }

    pub closed spec fn kind_spec(&self) -> SpanKind {
        self.kind
    }

    pub closed spec fn scope_name_spec(&self) -> Seq<char> {
        self.scope_name@
    }

    pub closed spec fn scope_version_spec(&self) -> Seq<char> {
        self.scope_version@
    }

    pub closed spec fn attributes_spec(&self) -> Seq<KeyValue> {
        self.attributes@
    }

    pub closed spec fn capacity_spec(&self) -> nat {
        self.attribute_capacity as nat
    }

    pub closed spec fn dropped_spec(&self) -> u32 {
        self.dropped_attributes_count
    }

    pub closed spec fn event_names_spec(&self) -> Seq<Seq<char>> {
        self.events@.map_values(|e: SpanEvent| e.name@)
    }

    pub closed spec fn links_spec(&self) -> Seq<SpanIdentity> {
        self.links@
    }

    pub closed spec fn status_spec(&self) -> Status {
        self.status
    }

    /// The attributes never hold two entries with one key, nor more entries
    /// than the capacity.
    pub open spec fn wf(&self) -> bool {
        &&& keys_unique(self.attributes_spec())
        &&& self.attributes_spec().len() <= self.capacity_spec()
    }

    /// Everything but the attributes and the dropped count is as in `other`.
    pub open spec fn same_but_attributes(&self, other: &SpanRecording) -> bool {
        &&& self.identity_spec() == other.identity_spec()
        &&& self.recording_spec() == other.recording_spec()
        &&& self.parent_span_id_spec() == other.parent_span_id_spec()
        &&& self.name_spec() == other.name_spec()
        &&& self.kind_spec() == other.kind_spec()
        &&& self.scope_name_spec() == other.scope_name_spec()
        &&& self.scope_version_spec() == other.scope_version_spec()
        &&& self.capacity_spec() == other.capacity_spec()
        &&& self.event_names_spec() == other.event_names_spec()
        &&& self.links_spec() == other.links_spec()
        &&& self.status_spec() == other.status_spec()
    }

    /// Everything but the links is as in `other`.
    pub open spec fn same_but_links(&self, other: &SpanRecording) -> bool {
        &&& self.identity_spec() == other.identity_spec()
        &&& self.recording_spec() == other.recording_spec()
        &&& self.attributes_spec() == other.attributes_spec()
        &&& self.capacity_spec() == other.capacity_spec()
        &&& self.dropped_spec() == other.dropped_spec()
        &&& self.event_names_spec() == other.event_names_spec()
        &&& self.status_spec() == other.status_spec()
    }

    /// Everything but the status is as in `other`.
    pub open spec fn same_but_status(&self, other: &SpanRecording) -> bool {
        &&& self.identity_spec() == other.identity_spec()
        &&& self.recording_spec() == other.recording_spec()
        &&& self.attributes_spec() == other.attributes_spec()
        &&& self.capacity_spec() == other.capacity_spec()
        &&& self.dropped_spec() == other.dropped_spec()
        &&& self.event_names_spec() == other.event_names_spec()
        &&& self.links_spec() == other.links_spec()
    }

    /// The parent identity that a span started in `parent` takes: the
    /// identity of its active span, where that is valid.
    pub open spec fn valid_parent(parent: &Context) -> Option<SpanIdentity> {
        match parent.span {
            Some(s) => if s.identity.valid_spec() { Some(s.identity) } else { None },
            None => None,
        }
    }

    /// Starts a span as a child of the active span of `parent`, where that
    /// span's identity is valid, and as a root of trace `root_trace_id`
    /// otherwise: the child keeps the parent's trace id and trace state.
    /// `sampler` decides whether it is recorded and whether it is sampled;
    /// a span whose trace id or span id is zero has the invalid sentinel
    /// for an identity and is neither.
    pub fn start(
        parent: &Context,
        sampler: &Sampler,
        root_trace_id: u128,
        span_id: u64,
        name: String,
        kind: SpanKind,
        scope_name: String,
        scope_version: String,
        attribute_capacity: usize,
    ) -> (r: SpanRecording)
        ensures
            r.wf(),
            r.recording_spec() ==> r.identity_spec().valid_spec(),
            r.identity_spec().sampled_spec() ==> r.recording_spec(),
            ({
                let p = Self::valid_parent(parent);
                let d = sampler.decision(p);
                let valid = r.identity_spec().valid_spec();
                &&& r.identity_spec().trace_id == (match p { Some(q) => q.trace_id, None => root_trace_id })
                &&& r.identity_spec().trace_state@ == (match p { Some(q) => q.trace_state@, None => Seq::<char>::empty() })
                &&& r.parent_span_id_spec() == (match p { Some(q) => q.span_id, None => 0 })
                &&& r.recording_spec() == (valid && d != SamplingDecision::Drop)
                &&& r.identity_spec().sampled_spec() == (valid && d == SamplingDecision::RecordAndSample)
            }),
            r.identity_spec().span_id == span_id,
            !r.identity_spec().is_remote,
            r.name_spec() == name@,
            r.kind_spec() == kind,
            r.scope_name_spec() == scope_name@,
            r.scope_version_spec() == scope_version@,
            r.capacity_spec() == attribute_capacity,
            r.attributes_spec().len() == 0,
            r.dropped_spec() == 0,
            r.event_names_spec().len() == 0,
            r.links_spec().len() == 0,
            r.status_spec() == Status::Unset,
    {
        let parent_identity = match parent.span_identity() {
            Some(p) => if p.is_valid() { Some(p) } else { None },
            None => None,
        };
        let decision = sampler.should_sample(parent_identity, root_trace_id, name.as_str(), kind);
        let (trace_id, trace_state, parent_span_id) = match parent_identity {
            Some(p) => (p.trace_id, p.trace_state.clone(), p.span_id),
            None => (root_trace_id, String::new(), 0),
        };
        let valid = trace_id != 0 && span_id != 0;
        let sampled = valid && match decision {
            SamplingDecision::RecordAndSample => true,
            _ => false,
        };
        let recording = valid && match decision {
            SamplingDecision::Drop => false,
            _ => true,
        };
        let flags: u8 = if sampled { SAMPLED_FLAG } else { 0 };
        proof {
            assert(SAMPLED_FLAG & SAMPLED_FLAG != 0) by (bit_vector);
            assert(0u8 & SAMPLED_FLAG == 0) by (bit_vector);
        }
        SpanRecording {
            identity: SpanIdentity::new(trace_id, span_id, flags, false, trace_state),
            recording,
            parent_span_id,
            kind,
            name,
            start_time: now(),
            attributes: Vec::new(),
            attribute_capacity,
            dropped_attributes_count: 0,
            events: Vec::new(),
            links: Vec::new(),
            status: Status::Unset,
            scope_name,
            scope_version,
        }
    }

    pub fn identity(&self) -> (r: &SpanIdentity)
        ensures
            *r == self.identity_spec(),
    {
        &self.identity
    }

    pub fn is_recording(&self) -> (r: bool)
        ensures
            r == self.recording_spec(),
    {
        self.recording
    }

    pub fn dropped_attributes_count(&self) -> (r: u32)
        ensures
            r == self.dropped_spec(),
    {
        self.dropped_attributes_count
    }

    /// The attributes set so far.
    pub fn attributes(&self) -> (r: &Vec<KeyValue>)
        ensures
            r@ == self.attributes_spec(),
    {
        &self.attributes
    }

    /// What a context holds when this span is its active span.
    pub fn active_span(&self) -> (r: ActiveSpan)
        ensures
            r == (ActiveSpan { identity: self.identity_spec(), recording: self.recording_spec() }),
    {
        ActiveSpan { identity: self.identity.clone(), recording: self.recording }
    }

    /// Sets attribute `key` to `value`. A key that is present gets the new
    /// value; a new key is added while there is room, and is otherwise
    /// dropped and counted (the count stops at its largest value). A span
    /// that is not recording is left as it is.
    pub fn set_attribute(&mut self, key: String, value: AttributeValue)
        requires
            old(self).wf(),
        ensures
            final(self).wf(),
            final(self).same_but_attributes(old(self)),
            !old(self).recording_spec() ==> *final(self) == *old(self),
            ({
                let a = old(self).attributes_spec();
                let b = final(self).attributes_spec();
                let kv = KeyValue { key: key, value: value };
                old(self).recording_spec() ==> {
                    &&& has_key(a, key@) ==> {
                        &&& b.len() == a.len()
                        &&& forall|i: int| 0 <= i < a.len() ==> #[trigger] b[i]
                            == if a[i].key@ == key@ { kv } else { a[i] }
                        &&& final(self).dropped_spec() == old(self).dropped_spec()
                    }
                    &&& !has_key(a, key@) && a.len() < old(self).capacity_spec() ==> {
                        &&& b == a.push(kv)
                        &&& final(self).dropped_spec() == old(self).dropped_spec()
                    }
                    &&& !has_key(a, key@) && a.len() >= old(self).capacity_spec() ==> {
                        &&& b == a
                        &&& final(self).dropped_spec() == if old(self).dropped_spec() == u32::MAX {
                            u32::MAX
                        } else {
                            (old(self).dropped_spec() + 1) as u32
                        }
                    }
                }
            }),
    {
        if !self.recording {
            return;
        }
        let n = self.attributes.len();
        let mut i: usize = 0;
        while i < n
            invariant
                n == self.attributes@.len(),
                *self == *old(self),
                self.wf(),
                self.recording,
                i <= n,
                forall|j: int| 0 <= j < i ==> (#[trigger] self.attributes@[j]).key@ != key@,
            decreases n - i,
        {
            if self.attributes[i].key == key {
                let ghost a = self.attributes@;
                let ghost kv = KeyValue { key: key, value: value };
                assert(keys_unique(a));
                assert(a[i as int].key@ == key@);
                self.attributes.set(i, KeyValue { key, value });
                assert(self.attributes@ == a.update(i as int, kv));
                assert forall|j: int| 0 <= j < a.len() implies #[trigger] self.attributes@[j]
                    == if a[j].key@ == kv.key@ { kv } else { a[j] } by {
                    if j != i && a[j].key@ == kv.key@ {
                        if j > i {
                            assert(a[i as int].key@ != a[j].key@);
                        }
                    }
                }
                assert forall|p: int, q: int| 0 <= p < q < self.attributes@.len() implies
                    (#[trigger] self.attributes@[p]).key@ != (#[trigger] self.attributes@[q]).key@ by {
                    assert(self.attributes@[p].key@ == a[p].key@);
                    assert(self.attributes@[q].key@ == a[q].key@);
                    assert(a[p].key@ != a[q].key@);
                }
                return;
            }
            i = i + 1;
        }
        if n < self.attribute_capacity {
            let ghost a = self.attributes@;
            self.attributes.push(KeyValue { key, value });
            assert forall|p: int, q: int| 0 <= p < q < self.attributes@.len() implies
                (#[trigger] self.attributes@[p]).key@ != (#[trigger] self.attributes@[q]).key@ by {
                if q < a.len() {
                    assert(a[p].key@ != a[q].key@);
                }
            }
        } else {
            self.dropped_attributes_count = self.dropped_attributes_count.saturating_add(1);
        }
    }

    /// Appends an event named `name`, stamped with the time now. A span
    /// that is not recording is left as it is.
    pub fn add_event(&mut self, name: String)
        requires
            old(self).wf(),
        ensures
            final(self).wf(),
            final(self).attributes_spec() == old(self).attributes_spec(),
            final(self).dropped_spec() == old(self).dropped_spec(),
            final(self).links_spec() == old(self).links_spec(),
            final(self).status_spec() == old(self).status_spec(),
            final(self).identity_spec() == old(self).identity_spec(),
            final(self).recording_spec() == old(self).recording_spec(),
            final(self).event_names_spec() == if old(self).recording_spec() {
                old(self).event_names_spec().push(name@)
            } else {
                old(self).event_names_spec()
            },
    {
        if self.recording {
            let ghost before = self.events@;
            self.events.push(SpanEvent { name, timestamp: now() });
            assert(self.events@.map_values(|e: SpanEvent| e.name@) =~= before.map_values(
                |e: SpanEvent| e.name@,
            ).push(name@));
        }
    }

    /// Appends a link to another span. A span that is not recording is left
    /// as it is.
    pub fn add_link(&mut self, link: SpanIdentity)
        requires
            old(self).wf(),
        ensures
            final(self).wf(),
            final(self).same_but_links(old(self)),
            final(self).links_spec() == if old(self).recording_spec() {
                old(self).links_spec().push(link)
            } else {
                old(self).links_spec()
            },
    {
        if self.recording {
            self.links.push(link);
        }
    }

    /// Sets the outcome of the span. A span that is not recording is left
    /// as it is.
    pub fn set_status(&mut self, status: Status)
        requires
            old(self).wf(),
        ensures
            final(self).wf(),
            final(self).same_but_status(old(self)),
            final(self).status_spec() == if old(self).recording_spec() {
                status
            } else {
                old(self).status_spec()
            },
    {
        if self.recording {
            self.status = status;
        }
    }

    /// Ends the span. A sampled span is frozen into the record that is
    /// handed to export; any other span leaves nothing.
    pub fn end(self) -> (r: Option<SpanRecord>)
        ensures
            r is Some <==> self.identity_spec().sampled_spec(),
            r matches Some(rec) ==> {
                &&& rec.identity == self.identity_spec()
                &&& rec.parent_span_id == self.parent_span_id_spec()
                &&& rec.kind == self.kind_spec()
                &&& rec.name@ == self.name_spec()
                &&& rec.attributes@ == self.attributes_spec()
                &&& rec.dropped_attributes_count == self.dropped_spec()
                &&& rec.events@.map_values(|e: SpanEvent| e.name@) == self.event_names_spec()
                &&& rec.links@ == self.links_spec()
                &&& rec.status == self.status_spec()
                &&& rec.scope_name@ == self.scope_name_spec()
                &&& rec.scope_version@ == self.scope_version_spec()
            },
    {
        if !self.identity.is_sampled() {
            return None;
        }
        let end_time = now();
        Some(SpanRecord {
            identity: self.identity,
            parent_span_id: self.parent_span_id,
            kind: self.kind,
            name: self.name,
            start_time: self.start_time,
            end_time,
            attributes: self.attributes,
            dropped_attributes_count: self.dropped_attributes_count,
            events: self.events,
            links: self.links,
            status: self.status,
            scope_name: self.scope_name,
            scope_version: self.scope_version,
        })
    }
}

} // verus!
