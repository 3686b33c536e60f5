use trace_core::identity::{SpanIdentity, SAMPLED_FLAG};
use trace_core::sampler::{Sampler, SamplingDecision, SpanKind};

fn parent(flags: u8, remote: bool) -> SpanIdentity {
    SpanIdentity::new(3, 4, flags, remote, String::new())
}

fn decide(s: &Sampler, p: Option<&SpanIdentity>) -> SamplingDecision {
    s.should_sample(p, 1, "span", SpanKind::Internal)
}

#[test]
fn constant_samplers() {
    assert_eq!(decide(&Sampler::AlwaysOn, None), SamplingDecision::RecordAndSample);
    assert_eq!(decide(&Sampler::AlwaysOff, Some(&parent(SAMPLED_FLAG, false))), SamplingDecision::Drop);
}

#[test]
fn parent_based_around_always_off() {
    let s = Sampler::ParentBased(Box::new(Sampler::AlwaysOff));
    let off = Sampler::AlwaysOff;
    let remote_sampled = parent(SAMPLED_FLAG, true);
    let remote_unsampled = parent(0, true);
    let local_sampled = parent(SAMPLED_FLAG, false);
    let local_unsampled = parent(0, false);
    assert_eq!(decide(&s, Some(&remote_sampled)), SamplingDecision::RecordAndSample);
    assert_eq!(decide(&s, Some(&remote_unsampled)), decide(&off, Some(&remote_unsampled)));
    assert_eq!(decide(&s, Some(&local_sampled)), SamplingDecision::RecordAndSample);
    assert_eq!(decide(&s, Some(&local_unsampled)), SamplingDecision::Drop);
    assert_eq!(decide(&s, None), decide(&off, None));
}

#[test]
fn parent_based_around_always_on() {
    let s = Sampler::ParentBased(Box::new(Sampler::AlwaysOn));
    assert_eq!(decide(&s, None), SamplingDecision::RecordAndSample);
    assert_eq!(decide(&s, Some(&parent(0, true))), SamplingDecision::RecordAndSample);
    assert_eq!(decide(&s, Some(&parent(0, false))), SamplingDecision::Drop);
}
