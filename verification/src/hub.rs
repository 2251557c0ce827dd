//! The reporting client: the outside types the library carries and the calls
//! it makes on them.

use crate::convert::process_protocol_event;
use crate::request::RequestSnapshot;
use actix_web::Error;
use sentry_core::Hub;
use std::sync::Arc;
use vstd::prelude::*;

verus! {

/// The hub of `sentry_core`: carried through, never looked into.
#[verifier::external_type_specification]
#[verifier::external_body]
pub struct ExHub(sentry_core::Hub);

/// The error of `actix_web`: carried through, never looked into.
#[verifier::external_type_specification]
#[verifier::external_body]
pub struct ExError(actix_web::Error);

/// How a client counts sessions.
pub enum SessionMode {
    /// One long session of the application.
    Application,
    /// One short session for each request.
    PerRequest,
}

/// The options of a client that the middleware goes by.
pub struct ClientSettings {
    /// Whether sessions are started without being asked for.
    pub auto_session_tracking: bool,
    /// How sessions are counted.
    pub session_mode: SessionMode,
    /// Whether personal data may be sent.
    pub send_default_pii: bool,
}

/// A character of a number written in lower-case hexadecimal.
pub open spec fn is_lower_hex(c: char) -> bool {
    ('0' <= c && c <= '9') || ('a' <= c && c <= 'f')
}

/// The simple form of an event id: 32 lower-case hexadecimal digits.
pub open spec fn is_simple_id(id: Seq<char>) -> bool {
    id.len() == 32 && forall|i: int| 0 <= i < id.len() ==> is_lower_hex(#[trigger] id[i])
}

/// `Arc::clone` on a hub: the new pointer leads to the same hub.
#[verifier::external_body]
pub(crate) fn share_hub(hub: &Arc<Hub>) -> (shared: Arc<Hub>)
    ensures
        shared == *hub,
{
    Arc::clone(hub)
}

/// `Hub::main`: the hub of the process.
#[verifier::external_body]
pub(crate) fn main_hub() -> (hub: Arc<Hub>) {
    Hub::main()
}

/// `Hub::new_from_top`: a new hub with the client and the top scope of
/// `parent`.
#[verifier::external_body]
pub(crate) fn fork_hub(parent: &Arc<Hub>) -> (hub: Hub) {
    Hub::new_from_top(parent)
}

/// `Hub::client` and `Client::options`: the three options that the
/// middleware goes by, or `None` where the hub has no client.
#[verifier::external_body]
pub(crate) fn client_settings(hub: &Hub) -> (settings: Option<ClientSettings>) {
    hub.client().map(
        |client|
            ClientSettings {
                auto_session_tracking: client.options().auto_session_tracking,
                session_mode: match client.options().session_mode {
                    sentry_core::SessionMode::Application => SessionMode::Application,
                    sentry_core::SessionMode::Request => SessionMode::PerRequest,
                },
                send_default_pii: client.options().send_default_pii,
            },
    )
}

/// `Hub::start_session`: starts a session on the hub's top scope.
#[verifier::external_body]
pub(crate) fn start_session(hub: &Hub) {
    hub.start_session()
}

/// `Hub::configure_scope`, with `Scope::set_transaction` and
/// `Scope::add_event_processor`: sets the transaction of the hub's scope and
/// has every event that is captured on it go through
/// `process_protocol_event` with `request`.
#[verifier::external_body]
pub(crate) fn configure_scope(hub: &Hub, transaction: Option<&str>, request: RequestSnapshot) {
    hub.configure_scope(
        |scope|
            {
                scope.set_transaction(transaction);
                scope.add_event_processor(
                    move |event| Some(process_protocol_event(event, &request)),
                );
            },
    )
}

/// `Hub::capture_error`, with the id that it returns written in its simple
/// form (`Uuid::simple`): the error is captured on the hub, and the id is 32
/// lower-case hexadecimal digits.
#[verifier::external_body]
pub(crate) fn capture_error(hub: &Hub, error: &Error) -> (id: String)
    ensures
        is_simple_id(id@),
{
    hub.capture_error(error).simple().to_string()
}

} // verus!
