use vstd::prelude::*;
use crate::identity::SpanIdentity;

verus! {

/// The span that a context holds as active: its identity, and whether a
/// live recording stands behind it.
#[derive(Debug, PartialEq, Eq)]
pub struct ActiveSpan {
    pub identity: SpanIdentity,
    pub recording: bool,
}

impl Clone for ActiveSpan {
    fn clone(&self) -> (r: Self)
        ensures
            r == *self,
    {
        ActiveSpan { identity: self.identity.clone(), recording: self.recording }
    }
}

/// An immutable propagation unit. Deriving a child context leaves the
/// parent as it was.
#[derive(Debug, PartialEq, Eq)]
pub struct Context {
    pub span: Option<ActiveSpan>,
}

impl Clone for Context {
    fn clone(&self) -> (r: Self)
        ensures
            r == *self,
    {
        match &self.span {
            Some(s) => Context { span: Some(s.clone()) },
            None => Context { span: None },
        }
    }
}

impl Context {
    pub open spec fn has_active_span_spec(&self) -> bool {
        self.span is Some
    }

    pub open spec fn is_sampled_spec(&self) -> bool {
        match self.span {
            Some(s) => s.identity.sampled_spec(),
            None => false,
        }
    }

    pub open spec fn is_recording_spec(&self) -> bool {
        match self.span {
            Some(s) => s.recording,
            None => false,
        }
    }

    /// The context that `with_remote_span_context` derives from this one.
    pub open spec fn with_remote_spec(&self, sc: SpanIdentity) -> Context {
        Context {
            span: Some(ActiveSpan { identity: SpanIdentity { is_remote: true, ..sc }, recording: false }),
            ..*self
        }
    }

    /// The empty context: no active span.
    pub fn new() -> (r: Self)
        ensures
            r.span is None,
    {
        Context { span: None }
    }

    pub fn has_active_span(&self) -> (r: bool)
        ensures
            r == self.has_active_span_spec(),
    {
        self.span.is_some()
    }

    pub fn is_sampled(&self) -> (r: bool)
        ensures
            r == self.is_sampled_spec(),
    {
        match &self.span {
            Some(s) => s.identity.is_sampled(),
            None => false,
        }
    }

    pub fn is_recording(&self) -> (r: bool)
        ensures
            r == self.is_recording_spec(),
    {
        match &self.span {
            Some(s) => s.recording,
            None => false,
        }
    }

    /// The identity of the active span, if there is one.
    pub fn span_identity(&self) -> (r: Option<&SpanIdentity>)
        ensures
            r == (match self.span {
                Some(s) => Some(&s.identity),
                None => None,
            }),
    {
        match &self.span {
            Some(s) => Some(&s.identity),
            None => None,
        }
    }

    /// A child of this context whose active span is `span`.
    pub fn with_span(&self, span: ActiveSpan) -> (r: Context)
        ensures
            r == (Context { span: Some(span), ..*self }),
    {
        Context { span: Some(span) }
    }

    /// A child of this context whose active span is a non-recording
    /// placeholder that carries `sc`, marked as remote.
    pub fn with_remote_span_context(&self, sc: SpanIdentity) -> (r: Context)
        ensures
            r == self.with_remote_spec(sc),
            r.has_active_span_spec(),
            !r.is_recording_spec(),
    {
        self.with_span(ActiveSpan { identity: sc.into_remote(), recording: false })
    }
}

} // verus!
