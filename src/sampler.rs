use vstd::prelude::*;
use crate::identity::SpanIdentity;

verus! {

/// What a sampler decides for a new span.
#[derive(Clone, Copy, Debug, PartialEq, Eq)]
pub enum SamplingDecision {
    /// The span is neither recorded nor sampled.
    Drop,
    /// The span is recorded but not sampled.
    RecordOnly,
    /// The span is recorded and sampled.
    RecordAndSample,
}

/// The role of a span in a trace.
#[derive(Clone, Copy, Debug, PartialEq, Eq)]
pub enum SpanKind {
    Client,
    Server,
    Producer,
    Consumer,
    Internal,
}

/// A sampling policy. Decisions are pure functions of their inputs.
pub enum Sampler {
    /// Always records and samples.
    AlwaysOn,
    /// Never records.
    AlwaysOff,
    /// Follows the parent span; a root span, or a remote parent that was
    /// not sampled, is decided by the inner sampler.
    ParentBased(Box<Sampler>),
}

impl Sampler {
    pub open spec fn decision(&self, parent: Option<SpanIdentity>) -> SamplingDecision
        decreases self,
    {
        match self {
            Sampler::AlwaysOn => SamplingDecision::RecordAndSample,
            Sampler::AlwaysOff => SamplingDecision::Drop,
            Sampler::ParentBased(inner) => match parent {
                None => inner.decision(parent),
                Some(p) => if p.sampled_spec() {
                    SamplingDecision::RecordAndSample
                } else if p.is_remote {
                    inner.decision(parent)
                } else {
                    SamplingDecision::Drop
                },
            },
        }
    }

    /// Decides whether a new span is recorded and sampled. `parent` is the
    /// identity of the active span of the parent context, if there is one.
    pub fn should_sample(
        &self,
        parent: Option<&SpanIdentity>,
        trace_id: u128,
        name: &str,
        kind: SpanKind,
    ) -> (r: SamplingDecision)
        ensures
            r == self.decision(match parent { Some(p) => Some(*p), None => None }),
        decreases self,
    {
        match self {
            Sampler::AlwaysOn => SamplingDecision::RecordAndSample,
            Sampler::AlwaysOff => SamplingDecision::Drop,
            Sampler::ParentBased(inner) => match parent {
                None => inner.should_sample(parent, trace_id, name, kind),
                Some(p) => if p.is_sampled() {
                    SamplingDecision::RecordAndSample
                } else if p.is_remote() {
                    inner.should_sample(parent, trace_id, name, kind)
                } else {
                    SamplingDecision::Drop
                },
            },
        }
    }
}

/// A parent-based sampler around `AlwaysOff` samples exactly the children
/// of sampled parents, local or remote, and otherwise decides as
/// `AlwaysOff` does.
pub proof fn lemma_parent_based_always_off(parent: SpanIdentity)
    ensures
        ({
            let s = Sampler::ParentBased(Box::new(Sampler::AlwaysOff));
            let off = Sampler::AlwaysOff;
            &&& (parent.is_remote && parent.sampled_spec()) ==> s.decision(Some(parent))
                == SamplingDecision::RecordAndSample
            &&& (parent.is_remote && !parent.sampled_spec()) ==> s.decision(Some(parent))
                == off.decision(Some(parent))
            &&& (!parent.is_remote && parent.sampled_spec()) ==> s.decision(Some(parent))
                == SamplingDecision::RecordAndSample
            &&& s.decision(None) == off.decision(None)
        }),
{
}

} // verus!
