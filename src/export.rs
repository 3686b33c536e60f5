use vstd::prelude::*;
use tokio::sync::mpsc::error::SendError;
use tokio::sync::mpsc::{UnboundedReceiver, UnboundedSender};
use crate::record::SpanRecord;

verus! {

#[verifier::external_type_specification]
#[verifier::external_body]
#[verifier::reject_recursive_types(T)]
pub struct ExUnboundedSender<T>(tokio::sync::mpsc::UnboundedSender<T>);

#[verifier::external_type_specification]
#[verifier::external_body]
#[verifier::reject_recursive_types(T)]
pub struct ExUnboundedReceiver<T>(tokio::sync::mpsc::UnboundedReceiver<T>);

#[verifier::external_type_specification]
#[verifier::external_body]
#[verifier::reject_recursive_types(T)]
pub struct ExSendError<T>(tokio::sync::mpsc::error::SendError<T>);

/// The records that a channel has accepted through this sender, in order.
pub uninterp spec fn accepted_records(tx: UnboundedSender<SpanRecord>) -> Seq<SpanRecord>;

/// The signals that a channel has accepted through this sender.
pub uninterp spec fn accepted_signals(tx: UnboundedSender<()>) -> Seq<()>;

/// Relies on tokio::sync::mpsc::unbounded_channel: a new channel has
/// accepted nothing.
#[verifier::external_body]
fn record_channel() -> (r: (UnboundedSender<SpanRecord>, UnboundedReceiver<SpanRecord>))
    ensures
        accepted_records(r.0) == Seq::<SpanRecord>::empty(),
{
    tokio::sync::mpsc::unbounded_channel()
}

/// Relies on tokio::sync::mpsc::unbounded_channel: a new channel has
/// accepted nothing.
#[verifier::external_body]
fn signal_channel() -> (r: (UnboundedSender<()>, UnboundedReceiver<()>))
    ensures
        accepted_signals(r.0) == Seq::<()>::empty(),
{
    tokio::sync::mpsc::unbounded_channel()
}

/// Relies on tokio's UnboundedSender::send: it never waits; on success the
/// channel has accepted the record after those before it, and on failure
/// (the receiver is closed) it has accepted nothing.
#[verifier::external_body]
fn send_record(tx: &mut UnboundedSender<SpanRecord>, record: SpanRecord) -> (r: Result<(), SendError<SpanRecord>>)
    ensures
        r is Ok ==> accepted_records(*final(tx)) == accepted_records(*old(tx)).push(record),
        r is Err ==> accepted_records(*final(tx)) == accepted_records(*old(tx)),
{
    tx.send(record)
}

/// Relies on tokio's `Debug` for SendError, which writes the struct name and
/// hides the value.
#[verifier::external_body]
fn send_error_debug(e: &SendError<SpanRecord>) -> (r: String)
    ensures
        r@ == "SendError { .. }"@,
{
    format!("{e:?}")
}

/// Relies on tokio's `Display` for SendError, which writes a fixed text.
#[verifier::external_body]
fn send_error_display(e: &SendError<SpanRecord>) -> (r: String)
    ensures
        r@ == "channel closed"@,
{
    e.to_string()
}

/// Relies on tokio's UnboundedSender::send, as `send_record` does.
#[verifier::external_body]
fn send_signal(tx: &mut UnboundedSender<()>) -> (sent: bool)
    ensures
        sent ==> accepted_signals(*final(tx)) == accepted_signals(*old(tx)).push(()),
        !sent ==> accepted_signals(*final(tx)) == accepted_signals(*old(tx)),
{
    tx.send(()).is_ok()
}

/// A failure of an exporter.
#[derive(Debug, PartialEq, Eq)]
pub enum SdkError {
    /// The exporter was shut down before the call.
    AlreadyShutdown,
    /// A channel or other plumbing failed; the text says what.
    InternalFailure(String),
}

/// An error that an exporter reports, with the exporter's name.
#[derive(Debug, PartialEq, Eq)]
pub struct TestExportError(pub String);

impl TestExportError {
    /// The name of the exporter that reports this error.
    pub fn exporter_name(&self) -> (r: &'static str)
        ensures
            r@ == "test"@,
    {
        "test"
    }

    /// The error for a record that a channel did not take, described as
    /// the channel error describes itself.
    pub fn from_send_error(err: SendError<SpanRecord>) -> (r: Self)
        ensures
            r.0@ == "channel closed"@,
    {
        TestExportError(send_error_display(&err))
    }

    /// The description of the error.
    pub fn message(&self) -> (r: &str)
        ensures
            r@ == self.0@,
    {
        self.0.as_str()
    }
}

/// The text of the error that an exporter reports when a record is not
/// taken by its channel: a prefix, then the channel error's debug form.
pub open spec fn export_failed_text() -> Seq<char> {
    "Export failed: "@ + "SendError { .. }"@
}

/// The text of the error that an exporter reports when its shutdown
/// signal is not taken by its channel.
pub open spec fn shutdown_failed_text() -> Seq<char> {
    "Failed to send shutdown signal"@
}

/// Where finished spans are delivered. Batches come one at a time.
pub trait SpanExporter {
    spec fn is_shut_down(&self) -> bool;

    /// Delivers `batch`.
    fn export(&mut self, batch: Vec<SpanRecord>) -> (r: Result<(), SdkError>)
        ensures
            final(self).is_shut_down() == old(self).is_shut_down(),
    ;

    /// Signals that no further batch will come.
    fn shutdown(&mut self) -> (r: Result<(), SdkError>)
        ensures
            final(self).is_shut_down(),
    ;
}

/// An exporter that takes every batch and does nothing with it.
#[derive(Debug)]
pub struct NoopSpanExporter {
    shut_down: bool,
}

impl NoopSpanExporter {
    /// Create a new noop span exporter
    pub fn new() -> (r: Self)
        ensures
            !r.is_shut_down(),
    {
        NoopSpanExporter { shut_down: false }
    }
}

impl Default for NoopSpanExporter {
    fn default() -> (r: Self)
        ensures
            !r.is_shut_down(),
    {
        NoopSpanExporter::new()
    }
}

/// A no-op exporter is determined by whether it was shut down: in
/// particular `new()` and `default()` give the same value.
pub proof fn lemma_noop_exporters_equal(a: NoopSpanExporter, b: NoopSpanExporter)
    requires
        a.is_shut_down() == b.is_shut_down(),
    ensures
        a == b,
{
}

impl SpanExporter for NoopSpanExporter {
    closed spec fn is_shut_down(&self) -> bool {
        self.shut_down
    }

    /// Succeeds on every batch, before and after a shutdown, and does
    /// nothing else.
    fn export(&mut self, batch: Vec<SpanRecord>) -> (r: Result<(), SdkError>)
        ensures
            r is Ok,
            *final(self) == *old(self),
    {
        Ok(())
    }

    fn shutdown(&mut self) -> (r: Result<(), SdkError>)
        ensures
            r is Ok,
    {
        self.shut_down = true;
        Ok(())
    }
}

/// An exporter that forwards each exported record to one channel and each
/// shutdown to another, so that a receiver can watch both.
pub struct TokioSpanExporter {
    tx_export: UnboundedSender<SpanRecord>,
    tx_shutdown: UnboundedSender<()>,
    shut_down: bool,
}

impl TokioSpanExporter {
    /// The records that the export channel has taken, in order.
    pub closed spec fn delivered(&self) -> Seq<SpanRecord> {
        accepted_records(self.tx_export)
    }

    /// How many shutdown signals the shutdown channel has taken.
    pub closed spec fn signals(&self) -> nat {
        accepted_signals(self.tx_shutdown).len()
    }
}

/// An exporter over two new channels, with the receiving ends of its record
/// channel and of its shutdown channel.
pub fn new_tokio_test_exporter() -> (r: (TokioSpanExporter, UnboundedReceiver<SpanRecord>, UnboundedReceiver<()>))
    ensures
        r.0.delivered().len() == 0,
        r.0.signals() == 0,
        !r.0.is_shut_down(),
{
    let (tx_export, rx_export) = record_channel();
    let (tx_shutdown, rx_shutdown) = signal_channel();
    let exporter = TokioSpanExporter { tx_export, tx_shutdown, shut_down: false };
    (exporter, rx_export, rx_shutdown)
}

impl SpanExporter for TokioSpanExporter {
    closed spec fn is_shut_down(&self) -> bool {
        self.shut_down
    }

    /// Sends the records of `batch` one by one, in order, and stops at the
    /// first that the channel does not take: no record is sent twice, and
    /// what was delivered is always a prefix of the batch.
    fn export(&mut self, batch: Vec<SpanRecord>) -> (r: Result<(), SdkError>)
        ensures
            old(self).is_shut_down() ==> r == Err::<(), SdkError>(SdkError::AlreadyShutdown),
            final(self).signals() == old(self).signals(),
            old(self).is_shut_down() ==> final(self).delivered() == old(self).delivered(),
            r is Ok ==> final(self).delivered() == old(self).delivered() + batch@,
            r matches Err(SdkError::InternalFailure(m)) ==> {
                &&& m@ == export_failed_text()
                &&& exists|k: int| 0 <= k < batch@.len()
                    && final(self).delivered() == old(self).delivered() + batch@.subrange(0, k)
            },
            !old(self).is_shut_down() ==> r matches Ok(_) || r matches Err(SdkError::InternalFailure(_)),
            !old(self).is_shut_down() && batch@.len() == 0 ==> r is Ok,
    {
        if self.shut_down {
            return Err(SdkError::AlreadyShutdown);
        }
        let ghost orig = batch@;
        let ghost start = accepted_records(self.tx_export);
        let n = batch.len();
        let mut pending = batch;
        let mut reversed: Vec<SpanRecord> = Vec::new();
        while pending.len() > 0
            invariant
                pending.len() + reversed.len() == n,
                n == orig.len(),
                pending@ == orig.subrange(0, pending.len() as int),
                forall|i: int| 0 <= i < reversed.len() ==> #[trigger] reversed@[i] == orig[n - 1 - i],
            decreases pending.len(),
        {
            match pending.pop() {
                Some(record) => reversed.push(record),
                None => {},
            }
        }
        while reversed.len() > 0
            invariant
                reversed.len() <= n,
                n == orig.len(),
                forall|i: int| 0 <= i < reversed.len() ==> #[trigger] reversed@[i] == orig[n - 1 - i],
                accepted_records(self.tx_export) == start + orig.subrange(0, n - reversed.len()),
                self.tx_shutdown == old(self).tx_shutdown,
                self.shut_down == old(self).shut_down,
                !self.shut_down,
                start == accepted_records(old(self).tx_export),
                orig == batch@,
            decreases reversed.len(),
        {
            let ghost k = n - reversed.len();
            match reversed.pop() {
                Some(record) => {
                    match send_record(&mut self.tx_export, record) {
                        Ok(()) => {},
                        Err(e) => {
                            assert(accepted_records(self.tx_export) == start + orig.subrange(0, k));
                            let detail = send_error_debug(&e);
                            let message = String::from_str("Export failed: ").concat(detail.as_str());
                            return Err(SdkError::InternalFailure(message));
                        },
                    }
                    assert(orig.subrange(0, k + 1) =~= orig.subrange(0, k).push(orig[k]));
                },
                None => {},
            }
        }
        assert(orig.subrange(0, n as int) =~= orig);
        Ok(())
    }

    /// Sends one shutdown signal, on the first call only: a later call
    /// fails and sends nothing.
    fn shutdown(&mut self) -> (r: Result<(), SdkError>)
        ensures
            old(self).is_shut_down() ==> r == Err::<(), SdkError>(SdkError::AlreadyShutdown),
            final(self).delivered() == old(self).delivered(),
            old(self).is_shut_down() ==> final(self).signals() == old(self).signals(),
            !old(self).is_shut_down() ==> {
                &&& r is Ok ==> final(self).signals() == old(self).signals() + 1
                &&& r is Err ==> final(self).signals() == old(self).signals()
                &&& r matches Err(e) ==> (e matches SdkError::InternalFailure(m) && m@ == shutdown_failed_text())
            },
    {
        if self.shut_down {
            return Err(SdkError::AlreadyShutdown);
        }
        self.shut_down = true;
        if send_signal(&mut self.tx_shutdown) {
            Ok(())
        } else {
            Err(SdkError::InternalFailure(String::from_str("Failed to send shutdown signal")))
        }
    }
}

} // verus!
