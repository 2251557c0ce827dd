//! The middleware around one service: what it does before a request is
//! handed to the service, and what it does with the outcome.

use crate::config::{Sentry, SentryView};
use crate::hub::{
    capture_error, client_settings, configure_scope, fork_hub, is_simple_id, start_session,
    ClientSettings, SessionMode,
};
use crate::pairs::distinct_keys;
use crate::request::{
    parsed_url, sentry_request_from_http, snapshot_of, text_of, transaction_of, url_text,
    RequestInfo, RequestSnapshot,
};
use actix_web::Error;
use sentry_core::Hub;
use std::sync::Arc;
use vstd::prelude::*;

verus! {

/// The response header that carries the id of the captured event.
pub const EVENT_HEADER: &'static str = "x-sentry-event";

/// The middleware for individual services.
pub struct SentryMiddleware<S> {
    service: S,
    inner: Sentry,
}

/// What one request carries from its entry to its outcome.
pub struct RequestContext {
    /// The hub of this request, to be bound while the service handles it.
    pub hub: Arc<Hub>,
    /// The options of the hub's client, as read at entry.
    pub client: Option<ClientSettings>,
    /// Whether a session was started for this request.
    pub session_started: bool,
    /// The transaction set on the hub's scope.
    pub transaction: Option<String>,
    /// The request data that the hub's events are given.
    pub request: RequestSnapshot,
}

/// How the service answered, without the error itself.
pub enum OutcomeKind {
    /// The service failed and produced no response.
    Failure,
    /// The service produced a response.
    Response {
        /// The status code of the response.
        status: u16,
        /// Whether an error is attached to the response.
        has_error: bool,
    },
}

/// How the service answered.
pub enum Outcome<'a> {
    /// The service failed and produced no response.
    Failure(&'a Error),
    /// The service produced a response.
    Response {
        /// The status code of the response.
        status: u16,
        /// The error attached to the response, if any.
        error: Option<&'a Error>,
    },
}

/// What the middleware does with an outcome.
pub struct Reaction {
    /// The error is captured on the request's hub.
    pub capture: bool,
    /// The id of the captured event is sent back in a response header.
    pub emit_header: bool,
}

/// What was done with an outcome.
pub struct Completion {
    /// The id of the event that the error was captured as, in its simple
    /// form; `None` where nothing was captured.
    pub event_id: Option<String>,
    /// The value of the `x-sentry-event` header that the response is to
    /// carry; `None` where it is to carry none.
    pub header: Option<String>,
}

impl<'a> Outcome<'a> {
    /// The outcome without the error itself.
    pub open spec fn kind(self) -> OutcomeKind {
        match self {
            Outcome::Failure(_) => OutcomeKind::Failure,
            Outcome::Response { status, error } => OutcomeKind::Response {
                status,
                has_error: error is Some,
            },
        }
    }
}

/// A session is started for each request: the hub has a client, sessions are
/// tracked without being asked for, and they are counted by request.
pub open spec fn tracks_sessions(client: Option<ClientSettings>) -> bool {
    match client {
        Some(settings) => settings.auto_session_tracking
            && settings.session_mode == SessionMode::PerRequest,
        None => false,
    }
}

/// Personal data may be sent: the hub has a client that allows it.
pub open spec fn sends_pii(client: Option<ClientSettings>) -> bool {
    match client {
        Some(settings) => settings.send_default_pii,
        None => false,
    }
}

/// The status codes of server errors: 500 to 599.
pub open spec fn is_server_error_status(status: u16) -> bool {
    500 <= status < 600
}

/// The reaction of a middleware to an outcome. A failure is captured where
/// server errors are captured at all. A response is captured where, besides,
/// its status is a server error and an error is attached to it; only then,
/// and where the header is asked for, the event id is sent back.
pub open spec fn reaction_to(config: SentryView, outcome: OutcomeKind) -> Reaction {
    match outcome {
        OutcomeKind::Failure => Reaction {
            capture: config.capture_server_errors,
            emit_header: false,
        },
        OutcomeKind::Response { status, has_error } => {
            let capture = config.capture_server_errors && is_server_error_status(status)
                && has_error;
            Reaction { capture, emit_header: capture && config.emit_header }
        },
    }
}

/// Whether a session is started for each request.
pub fn track_sessions(client: &Option<ClientSettings>) -> (track: bool)
    ensures
        track == tracks_sessions(*client),
{
    match client {
        Some(settings) => settings.auto_session_tracking && match settings.session_mode {
            SessionMode::PerRequest => true,
            SessionMode::Application => false,
        },
        None => false,
    }
}

/// Whether personal data may be sent.
pub fn with_pii(client: &Option<ClientSettings>) -> (pii: bool)
    ensures
        pii == sends_pii(*client),
{
    match client {
        Some(settings) => settings.send_default_pii,
        None => false,
    }
}

/// Whether a status code is that of a server error.
pub fn is_server_error(status: u16) -> (server_error: bool)
    ensures
        server_error == is_server_error_status(status),
{
    500 <= status && status < 600
}

impl Sentry {
    /// Wraps a service in the middleware, with a copy of these settings.
    pub fn new_transform<S>(&self, service: S) -> (middleware: SentryMiddleware<S>)
        ensures
            middleware.config() == self@,
            middleware.wrapped() == service,
    {
        SentryMiddleware { service, inner: self.clone() }
    }

    /// The hub of one request: a fork of the configured hub, or of the main
    /// hub where none is configured.
    fn request_hub(&self) -> (hub: Arc<Hub>) {
        Arc::new(fork_hub(&self.parent_hub()))
    }

    /// What the middleware does with an outcome.
    pub fn react(&self, outcome: OutcomeKind) -> (reaction: Reaction)
        ensures
            reaction == reaction_to(self@, outcome),
    {
        match outcome {
            OutcomeKind::Failure => Reaction {
                capture: self.captures_server_errors(),
                emit_header: false,
            },
            OutcomeKind::Response { status, has_error } => {
                let capture = self.captures_server_errors() && is_server_error(status)
                    && has_error;
                Reaction { capture, emit_header: capture && self.emits_header() }
            },
        }
    }

    /// Deals with the outcome of a request on the request's hub. The error
    /// of the outcome is captured where the settings ask for it, and the id
    /// of the event comes back; it comes back a second time as the value of
    /// the `x-sentry-event` header where the response is to carry one.
    pub fn complete(&self, hub: &Hub, outcome: Outcome<'_>) -> (done: Completion)
        ensures
            done.event_id is Some <==> reaction_to(self@, outcome.kind()).capture,
            done.event_id matches Some(id) ==> is_simple_id(id@),
            text_of(done.header) == if reaction_to(self@, outcome.kind()).emit_header {
                text_of(done.event_id)
            } else {
                None
            },
    {
        match outcome {
            Outcome::Failure(error) => {
                let reaction = self.react(OutcomeKind::Failure);
                if reaction.capture {
                    Completion { event_id: Some(capture_error(hub, error)), header: None }
                } else {
                    Completion { event_id: None, header: None }
                }
            },
            Outcome::Response { status, error: Some(error) } => {
                let reaction = self.react(OutcomeKind::Response { status, has_error: true });
                if reaction.capture {
                    let id = capture_error(hub, error);
                    let header = if reaction.emit_header {
                        Some(id.clone())
                    } else {
                        None
                    };
                    Completion { event_id: Some(id), header }
                } else {
                    Completion { event_id: None, header: None }
                }
            },
            Outcome::Response { status, error: None } => Completion {
                event_id: None,
                header: None,
            },
        }
    }
}

impl<S> SentryMiddleware<S> {
    /// The settings of the middleware.
    pub closed spec fn config(&self) -> SentryView {
        self.inner@
    }

    /// The service that the middleware wraps.
    pub closed spec fn wrapped(&self) -> S {
        self.service
    }

    /// The service that the middleware wraps.
    pub fn service(&self) -> (service: &S)
        ensures
            *service == self.wrapped(),
    {
        &self.service
    }

    /// The settings of the middleware.
    pub fn inner(&self) -> (inner: &Sentry)
        ensures
            inner@ == self.config(),
    {
        &self.inner
    }

    /// Prepares a request before the service handles it. The request gets a
    /// hub of its own; a session is started on it where the client counts
    /// sessions by request; the request's transaction is set on its scope,
    /// and every event captured on it is given the request's data.
    pub fn prepare(&self, request: &RequestInfo) -> (context: RequestContext)
        ensures
            context.session_started == tracks_sessions(context.client),
            text_of(context.transaction) == transaction_of(*request),
            context.request@ == snapshot_of(
                *request,
                parsed_url(url_text(*request)),
                sends_pii(context.client),
            ),
            distinct_keys(context.request.headers@),
            distinct_keys(context.request.env@),
    {
        let hub = self.inner.request_hub();
        let client = client_settings(&hub);
        let session_started = track_sessions(&client);
        if session_started {
            start_session(&hub);
        }
        let pii = with_pii(&client);
        let (transaction, snapshot) = sentry_request_from_http(request, pii);
        let label = match &transaction {
            Some(name) => Some(name.as_str()),
            None => None,
        };
        configure_scope(&hub, label, snapshot.clone());
        RequestContext { hub, client, session_started, transaction, request: snapshot }
    }
}

} // verus!
