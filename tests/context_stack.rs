use trace_core::export::{new_tokio_test_exporter, SpanExporter};
use trace_core::record::new_test_export_span_data;
use trace_core::context::{ActiveSpan, Context};
use trace_core::identity::{SpanIdentity, SAMPLED_FLAG};
use trace_core::stack::ContextStack;

fn identity(span_id: u64, flags: u8) -> SpanIdentity {
    SpanIdentity::new(0x09251969, span_id, flags, false, String::new())
}

fn local_span(span_id: u64, flags: u8) -> Context {
    Context::new().with_span(ActiveSpan { identity: identity(span_id, flags), recording: true })
}

#[test]
fn empty_stack_has_no_active_span() {
    let stack = ContextStack::new(1);
    assert_eq!(stack.current(), Context::new());
    assert!(!stack.has_active_span());
    assert!(!stack.is_sampled());
    assert!(!stack.is_recording());
}

#[test]
fn nested_attach_unwinds_to_start() {
    let mut stack = ContextStack::new(1);
    let before = stack.current();
    let g1 = stack.attach(local_span(1, SAMPLED_FLAG));
    let g2 = stack.attach(local_span(2, 0));
    let g3 = stack.attach(local_span(3, SAMPLED_FLAG));
    assert_eq!(g3.depth(), 3);
    assert_eq!(stack.current(), local_span(3, SAMPLED_FLAG));
    assert!(stack.release(g3).is_ok());
    assert_eq!(stack.current(), local_span(2, 0));
    assert!(stack.release(g2).is_ok());
    assert_eq!(stack.current(), local_span(1, SAMPLED_FLAG));
    assert!(stack.release(g1).is_ok());
    assert_eq!(stack.current(), before);
}

#[test]
fn out_of_order_release_is_reported() {
    let mut stack = ContextStack::new(1);
    let g1 = stack.attach(local_span(1, SAMPLED_FLAG));
    let g2 = stack.attach(local_span(2, 0));
    let err = stack.release(g1).unwrap_err();
    assert!(err.same_cell);
    assert_eq!(err.guard_depth, 1);
    assert_eq!(err.topmost_depth, 2);
    assert_eq!(stack.current(), local_span(2, 0));
    assert!(stack.release(g2).is_ok());
    assert_eq!(stack.current(), local_span(1, SAMPLED_FLAG));
}

#[test]
fn mapped_queries_match_direct_queries() {
    let mut stack = ContextStack::new(1);
    let environments = [None, Some(local_span(7, 0)), Some(local_span(8, SAMPLED_FLAG))];
    for env in environments {
        let guard = env.map(|cx| stack.attach(cx));
        assert_eq!(stack.map_current(|cx| cx.has_active_span()), stack.current().has_active_span());
        assert_eq!(stack.map_current(|cx| cx.is_sampled()), stack.current().is_sampled());
        assert_eq!(stack.map_current(|cx| cx.is_recording()), stack.current().is_recording());
        assert_eq!(stack.has_active_span(), stack.current().has_active_span());
        assert_eq!(stack.is_sampled(), stack.current().is_sampled());
        assert_eq!(stack.is_recording(), stack.current().is_recording());
        if let Some(g) = guard {
            assert!(stack.release(g).is_ok());
        }
    }
}

#[test]
fn sampled_span_queries() {
    let mut stack = ContextStack::new(1);
    let _g = stack.attach(local_span(8, SAMPLED_FLAG));
    assert!(stack.has_active_span());
    assert!(stack.is_sampled());
    assert!(stack.is_recording());
}

#[test]
fn remote_span_context_is_active_and_not_recording() {
    let stack = ContextStack::new(1);
    let sc = SpanIdentity::new(0x09251969, 0x08171969, SAMPLED_FLAG, false, String::new());
    let cx = stack.with_remote_span_context(sc);
    assert!(cx.has_active_span());
    assert!(!cx.is_recording());
    assert!(cx.is_sampled());
    let id = cx.span_identity().unwrap();
    assert!(id.is_remote());
    assert_eq!(id.span_id, 0x08171969);
    assert_eq!(stack.current(), Context::new());
}

#[test]
fn invalid_identity_is_not_valid() {
    let id = SpanIdentity::invalid();
    assert!(!id.is_valid());
    assert!(!id.is_sampled());
    assert!(identity(1, 0).is_valid());
    assert!(!SpanIdentity::new(0, 1, 0, false, String::new()).is_valid());
    assert!(!SpanIdentity::new(1, 0, 0, false, String::new()).is_valid());
}

#[test]
fn guard_from_another_cell_is_refused() {
    let mut a = ContextStack::new(1);
    let mut b = ContextStack::new(2);
    let ga = a.attach(local_span(1, SAMPLED_FLAG));
    let gb = b.attach(local_span(2, 0));
    let err = b.release(ga).unwrap_err();
    assert!(!err.same_cell);
    assert_eq!(err.guard_depth, 1);
    assert_eq!(err.topmost_depth, 1);
    assert_eq!(b.current(), local_span(2, 0));
    assert!(b.release(gb).is_ok());
    assert_eq!(b.current(), Context::new());
    assert_eq!(a.depth(), 1);
}

#[test]
fn deep_unwind_around_export_restores_start() {
    let mut stack = ContextStack::new(3);
    let before = stack.current();
    let mut guards = Vec::new();
    for i in 1..=12u64 {
        guards.push(stack.attach(local_span(i, (i % 2) as u8)));
    }
    let (mut exporter, mut rx, _rx_shutdown) = new_tokio_test_exporter();
    assert!(exporter.export(vec![new_test_export_span_data()]).is_ok());
    assert!(rx.try_recv().is_ok());
    assert_eq!(stack.current(), local_span(12, 0));
    while let Some(g) = guards.pop() {
        assert!(stack.release(g).is_ok());
    }
    assert_eq!(stack.current(), before);
    assert_eq!(stack.depth(), 0);
}
