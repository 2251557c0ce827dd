//! The middleware's settings and their builder.

use crate::hub::{main_hub, share_hub};
use sentry_core::Hub;
use std::sync::Arc;
use vstd::prelude::*;

verus! {

/// What a middleware is configured with.
pub struct SentryView {
    /// The hub that request hubs are forked from; `None` stands for the
    /// process's main hub.
    pub hub: Option<Arc<Hub>>,
    /// Whether the event id is sent back in a response header.
    pub emit_header: bool,
    /// Whether server errors are captured at all.
    pub capture_server_errors: bool,
}

/// Reports certain failures to Sentry.
pub struct Sentry {
    hub: Option<Arc<Hub>>,
    emit_header: bool,
    capture_server_errors: bool,
}

/// A helper construct that can be used to reconfigure and build the middleware.
pub struct SentryBuilder {
    middleware: Sentry,
}

impl View for Sentry {
    type V = SentryView;

    closed spec fn view(&self) -> SentryView {
        SentryView {
            hub: self.hub,
            emit_header: self.emit_header,
            capture_server_errors: self.capture_server_errors,
        }
    }
}

impl View for SentryBuilder {
    type V = SentryView;

    closed spec fn view(&self) -> SentryView {
        self.middleware@
    }
}

impl Sentry {
    /// Creates a new sentry middleware: forked from the main hub, no header,
    /// server errors captured.
    pub fn new() -> (sentry: Self)
        ensures
            sentry@ == (SentryView { hub: None, emit_header: false, capture_server_errors: true }),
    {
        Sentry { hub: None, emit_header: false, capture_server_errors: true }
    }

    /// Creates a new middleware builder.
    pub fn builder() -> (builder: SentryBuilder)
        ensures
            builder@ == (SentryView { hub: None, emit_header: false, capture_server_errors: true }),
    {
        Sentry::new().into_builder()
    }

    /// Converts the middleware into a builder.
    pub fn into_builder(self) -> (builder: SentryBuilder)
        ensures
            builder@ == self@,
    {
        SentryBuilder { middleware: self }
    }

    /// The hub that request hubs are forked from, if one was set.
    pub fn hub(&self) -> (hub: Option<Arc<Hub>>)
        ensures
            hub == self@.hub,
    {
        match &self.hub {
            Some(hub) => Some(share_hub(hub)),
            None => None,
        }
    }

    /// Whether the event id is sent back in a response header.
    pub fn emits_header(&self) -> (emit: bool)
        ensures
            emit == self@.emit_header,
    {
        self.emit_header
    }

    /// Whether server errors are captured.
    pub fn captures_server_errors(&self) -> (capture: bool)
        ensures
            capture == self@.capture_server_errors,
    {
        self.capture_server_errors
    }

    /// The hub that request hubs are forked from: the configured hub, or the
    /// main hub of the process where none is configured.
    pub fn parent_hub(&self) -> (parent: Arc<Hub>)
        ensures
            self@.hub matches Some(hub) ==> parent == hub,
    {
        match &self.hub {
            Some(hub) => share_hub(hub),
            None => main_hub(),
        }
    }
}

impl Clone for Sentry {
    fn clone(&self) -> (copy: Self)
        ensures
            copy == *self,
    {
        Sentry {
            hub: self.hub(),
            emit_header: self.emit_header,
            capture_server_errors: self.capture_server_errors,
        }
    }
}

impl Default for Sentry {
    fn default() -> (sentry: Self)
        ensures
            sentry@ == (SentryView { hub: None, emit_header: false, capture_server_errors: true }),
    {
        Sentry::new()
    }
}

impl SentryBuilder {
    /// Finishes the building and returns a middleware
    pub fn finish(self) -> (sentry: Sentry)
        ensures
            sentry@ == self@,
    {
        self.middleware
    }

    /// Reconfigures the middleware so that it uses a specific hub instead of the default one.
    pub fn with_hub(self, hub: Arc<Hub>) -> (builder: Self)
        ensures
            builder@ == (SentryView { hub: Some(hub), ..self@ }),
    {
        let mut builder = self;
        builder.middleware.hub = Some(hub);
        builder
    }

    /// Reconfigures the middleware so that it uses the main hub again.
    pub fn with_default_hub(self) -> (builder: Self)
        ensures
            builder@ == (SentryView { hub: None, ..self@ }),
    {
        let mut builder = self;
        builder.middleware.hub = None;
        builder
    }

    /// If configured the sentry id is attached to a X-Sentry-Event header.
    pub fn emit_header(self, val: bool) -> (builder: Self)
        ensures
            builder@ == (SentryView { emit_header: val, ..self@ }),
    {
        let mut builder = self;
        builder.middleware.emit_header = val;
        builder
    }

    /// Enables or disables error reporting.
    ///
    /// The default is to report all errors.
    pub fn capture_server_errors(self, val: bool) -> (builder: Self)
        ensures
            builder@ == (SentryView { capture_server_errors: val, ..self@ }),
    {
        let mut builder = self;
        builder.middleware.capture_server_errors = val;
        builder
    }
}

} // verus!
