use trace_core::export::{new_tokio_test_exporter, NoopSpanExporter, SdkError, SpanExporter, TestExportError};
use trace_core::identity::SAMPLED_FLAG;
use std::time::{Duration, SystemTime};
use trace_core::record::{new_test_export_span_data, test_export_span_data_at, SpanRecord, Status};
use trace_core::sampler::SpanKind;

fn record(name: &str) -> SpanRecord {
    let mut r = new_test_export_span_data();
    r.name = name.to_string();
    r
}

#[test]
fn test_span_data_fields() {
    let r = new_test_export_span_data();
    assert_eq!(r.identity.trace_id, 1);
    assert_eq!(r.identity.span_id, 1);
    assert_eq!(r.identity.trace_flags, SAMPLED_FLAG);
    assert!(!r.identity.is_remote);
    assert_eq!(r.parent_span_id, 0);
    assert_eq!(r.kind, SpanKind::Internal);
    assert_eq!(r.name, "opentelemetry");
    assert_eq!(r.status, Status::Unset);
}

#[test]
fn test_span_data_takes_given_times() {
    let start = SystemTime::UNIX_EPOCH + Duration::from_secs(10);
    let end = SystemTime::UNIX_EPOCH + Duration::from_secs(12);
    let r = test_export_span_data_at(start, end);
    assert_eq!(r.start_time, start);
    assert_eq!(r.end_time, end);
    assert_eq!(r.name, "opentelemetry");
    assert_eq!(r.clone(), r);
}

#[test]
fn empty_batch_has_no_effect() {
    let (mut exporter, mut rx, mut rx_shutdown) = new_tokio_test_exporter();
    assert!(exporter.export(Vec::new()).is_ok());
    assert!(rx.try_recv().is_err());
    assert!(rx_shutdown.try_recv().is_err());
}

#[test]
fn batch_delivered_in_order_then_one_shutdown() {
    let (mut exporter, mut rx, mut rx_shutdown) = new_tokio_test_exporter();
    let names = ["a", "b", "c"];
    let batch: Vec<SpanRecord> = names.iter().map(|n| record(n)).collect();
    assert!(exporter.export(batch).is_ok());
    for n in names {
        assert_eq!(rx.try_recv().unwrap().name, n);
    }
    assert!(rx.try_recv().is_err());
    assert!(exporter.shutdown().is_ok());
    assert!(rx_shutdown.try_recv().is_ok());
    assert!(rx_shutdown.try_recv().is_err());
}

#[test]
fn export_after_shutdown_fails() {
    let (mut exporter, mut rx, _rx_shutdown) = new_tokio_test_exporter();
    assert!(exporter.shutdown().is_ok());
    assert_eq!(exporter.export(vec![record("late")]), Err(SdkError::AlreadyShutdown));
    assert!(rx.try_recv().is_err());
}

#[test]
fn second_shutdown_sends_nothing() {
    let (mut exporter, _rx, mut rx_shutdown) = new_tokio_test_exporter();
    assert!(exporter.shutdown().is_ok());
    assert_eq!(exporter.shutdown(), Err(SdkError::AlreadyShutdown));
    assert!(rx_shutdown.try_recv().is_ok());
    assert!(rx_shutdown.try_recv().is_err());
}

#[test]
fn closed_receiver_gives_internal_failure() {
    let (mut exporter, rx, rx_shutdown) = new_tokio_test_exporter();
    drop(rx);
    drop(rx_shutdown);
    assert_eq!(
        exporter.export(vec![record("x")]),
        Err(SdkError::InternalFailure("Export failed: SendError { .. }".to_string()))
    );
    assert_eq!(
        exporter.shutdown(),
        Err(SdkError::InternalFailure("Failed to send shutdown signal".to_string()))
    );
}

#[test]
fn noop_exporter_always_succeeds() {
    let mut exporter = NoopSpanExporter::new();
    assert!(exporter.export(vec![record("x")]).is_ok());
    assert!(exporter.export(Vec::new()).is_ok());
    assert!(exporter.shutdown().is_ok());
    assert!(exporter.export(vec![record("after")]).is_ok());
    assert!(exporter.shutdown().is_ok());
    assert_eq!(format!("{:?}", NoopSpanExporter::new()), format!("{:?}", NoopSpanExporter::default()));
    let mut d = NoopSpanExporter::default();
    assert!(d.export(Vec::new()).is_ok());
}

#[test]
fn test_export_error_reports_name() {
    let e = TestExportError("boom".to_string());
    assert_eq!(e.exporter_name(), "test");
    assert_eq!(e.message(), "boom");
}

#[test]
fn send_error_becomes_test_export_error() {
    let (tx, rx) = tokio::sync::mpsc::unbounded_channel::<SpanRecord>();
    drop(rx);
    let err = tx.send(record("lost")).unwrap_err();
    let e = TestExportError::from_send_error(err);
    assert_eq!(e.message(), "channel closed");
    assert_eq!(e.exporter_name(), "test");
}
