//! What holds of the middleware's decisions for every setting, request and
//! outcome.

use crate::config::SentryView;
use crate::event::{integration_package, processed, EventFieldsView};
use crate::hub::{is_lower_hex, is_simple_id};
use crate::middleware::{is_server_error_status, reaction_to, OutcomeKind, Reaction};
use crate::request::{snapshot_of, RequestInfo, SnapshotView};
use vstd::prelude::*;

verus! {

/// A response with a client error's status, 400 to 499, is never reported,
/// whatever the settings and whether or not an error is attached to it:
/// nothing is captured and no header is sent.
pub proof fn client_errors_are_not_reported(config: SentryView, status: u16, has_error: bool)
    requires
        400 <= status < 500,
    ensures
        reaction_to(config, OutcomeKind::Response { status, has_error }) == (Reaction {
            capture: false,
            emit_header: false,
        }),
{
}

/// The same holds of every status that is no server error.
pub proof fn other_statuses_are_not_reported(config: SentryView, status: u16, has_error: bool)
    requires
        !is_server_error_status(status),
    ensures
        reaction_to(config, OutcomeKind::Response { status, has_error }) == (Reaction {
            capture: false,
            emit_header: false,
        }),
{
}

/// Where server errors are captured, a failure of the service is captured,
/// and so is a response with a server error's status and an error attached.
/// Where they are not captured, nothing is.
pub proof fn server_errors_are_reported(config: SentryView, status: u16)
    requires
        is_server_error_status(status),
    ensures
        reaction_to(config, OutcomeKind::Failure).capture == config.capture_server_errors,
        reaction_to(config, OutcomeKind::Response { status, has_error: true }).capture
            == config.capture_server_errors,
        !reaction_to(config, OutcomeKind::Response { status, has_error: false }).capture,
{
}

/// The event id is sent back only for an event that was captured for a
/// response, and only where the settings ask for the header.
pub proof fn header_needs_capture(config: SentryView, outcome: OutcomeKind)
    ensures
        reaction_to(config, outcome).emit_header ==> reaction_to(config, outcome).capture
            && config.emit_header && outcome is Response,
{
}

/// An event that comes without request data leaves with the data of the
/// request it was captured in: its method, its headers and its URL.
pub proof fn event_carries_its_request(
    event: EventFieldsView,
    info: RequestInfo,
    url: Option<Seq<char>>,
    with_pii: bool,
)
    requires
        event.request is None,
    ensures
        processed(event, snapshot_of(info, url, with_pii)).request == Some(
            snapshot_of(info, url, with_pii),
        ),
        processed(event, snapshot_of(info, url, with_pii)).request->0.method == Some(
            info.method@,
        ),
{
}

/// Request data that an event has already is never replaced: an event that
/// went through the processing of one request keeps that request's data when
/// it goes through the processing of another.
pub proof fn request_data_is_kept(event: EventFieldsView, first: SnapshotView, second: SnapshotView)
    ensures
        event.request is Some ==> processed(event, second).request == event.request,
        processed(processed(event, first), second).request == processed(event, first).request,
{
}

/// Processing adds this integration once, at the end of the packages, and
/// only to an event that names its SDK.
pub proof fn integration_is_added_once(event: EventFieldsView, request: SnapshotView)
    ensures
        event.sdk is None ==> processed(event, request).sdk is None,
        event.sdk matches Some(sdk) ==> {
            let packages = processed(event, request).sdk->0.packages;
            &&& packages.len() == sdk.packages.len() + 1
            &&& packages.last() == integration_package()
            &&& packages.drop_last() == sdk.packages
        },
{
    if event.sdk is Some {
        let sdk = event.sdk->0;
        assert(sdk.packages.push(integration_package()).drop_last() =~= sdk.packages);
    }
}

/// Without personal data the snapshot has no environment entry, so the
/// peer's address is not in it.
pub proof fn address_needs_permission(info: RequestInfo, url: Option<Seq<char>>)
    ensures
        snapshot_of(info, url, false).env == Map::<Seq<char>, Seq<char>>::empty(),
{
}

/// Text that a header value may hold: visible ASCII characters and tabs.
pub open spec fn is_header_text(text: Seq<char>) -> bool {
    forall|i: int|
        0 <= i < text.len() ==> (' ' <= #[trigger] text[i] && text[i] <= '~') || text[i] == '\t'
}

/// The simple form of an event id is text that a header value may hold.
pub proof fn simple_id_is_header_text(id: Seq<char>)
    requires
        is_simple_id(id),
    ensures
        is_header_text(id),
{
    assert forall|i: int| 0 <= i < id.len() implies (' ' <= #[trigger] id[i] && id[i] <= '~')
        || id[i] == '\t' by {
        assert(is_lower_hex(id[i]));
    }
}

} // verus!
