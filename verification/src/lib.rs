//! Middleware logic that reports failures of an actix-web service to Sentry.
//!
//! Every request gets a hub of its own, forked from the configured parent.
//! The request's data is attached to each event captured while the request is
//! handled, and a server error that the handler produces is captured on that
//! hub.

pub mod config;
pub mod convert;
pub mod event;
pub mod hub;
pub mod laws;
pub mod middleware;
pub mod pairs;
pub mod request;

pub use config::{Sentry, SentryBuilder, SentryView};
pub use middleware::SentryMiddleware;
