//! Events as `sentry_core` holds them: how the fields that the middleware
//! works on are taken out of such an event and put back.

use crate::event::{process_event, SdkInfo, SdkPackage, EventFields};
use crate::request::RequestSnapshot;
use sentry_core::protocol;
use std::borrow::Cow;
use vstd::prelude::*;

verus! {

/// The event of `sentry_core::protocol`: carried through, never looked into.
#[verifier::external_type_specification]
#[verifier::external_body]
pub struct ExEvent<'a>(sentry_core::protocol::Event<'a>);

/// The request data of `sentry_core::protocol`.
#[verifier::external_type_specification]
#[verifier::external_body]
pub struct ExRequest(sentry_core::protocol::Request);

/// The SDK information of `sentry_core::protocol`.
#[verifier::external_type_specification]
#[verifier::external_body]
pub struct ExClientSdkInfo(sentry_core::protocol::ClientSdkInfo);

/// Moves the fields `request` and `sdk` out of a `protocol::Event`
/// (`Option::take`, `Cow::into_owned`) and leaves `None` in their place.
#[verifier::external_body]
fn split_event(event: &mut protocol::Event<'static>) -> (fields: (
    Option<protocol::Request>,
    Option<protocol::ClientSdkInfo>,
)) {
    (event.request.take(), event.sdk.take().map(Cow::into_owned))
}

/// Writes the fields `request` and `sdk` of a `protocol::Event`.
#[verifier::external_body]
fn join_event(
    event: &mut protocol::Event<'static>,
    request: Option<protocol::Request>,
    sdk: Option<protocol::ClientSdkInfo>,
) {
    event.request = request;
    event.sdk = sdk.map(Cow::Owned);
}

/// The fields of a `protocol::Request`, one for one: the URL as the text
/// that `Url` writes itself as, the two mappings as their pairs in the order
/// of their names.
#[verifier::external_body]
fn request_from_protocol(request: protocol::Request) -> (fields: RequestSnapshot) {
    RequestSnapshot {
        url: request.url.map(String::from),
        method: request.method,
        data: request.data,
        query_string: request.query_string,
        cookies: request.cookies,
        headers: request.headers.into_iter().collect(),
        env: request.env.into_iter().collect(),
    }
}

/// A `protocol::Request` of the same fields: the URL is parsed with
/// `Url::parse` and left out where it does not parse, and of two pairs with
/// one name the later one stays.
#[verifier::external_body]
fn request_to_protocol(request: RequestSnapshot) -> (fields: protocol::Request) {
    protocol::Request {
        url: request.url.and_then(|url| protocol::Url::parse(&url).ok()),
        method: request.method,
        data: request.data,
        query_string: request.query_string,
        cookies: request.cookies,
        headers: request.headers.into_iter().collect(),
        env: request.env.into_iter().collect(),
    }
}

/// The fields of a `protocol::ClientSdkInfo`, one for one.
#[verifier::external_body]
fn sdk_from_protocol(sdk: protocol::ClientSdkInfo) -> (fields: SdkInfo) {
    SdkInfo {
        name: sdk.name,
        version: sdk.version,
        integrations: sdk.integrations,
        packages: sdk.packages.into_iter().map(
            |package| SdkPackage { name: package.name, version: package.version },
        ).collect(),
    }
}

/// A `protocol::ClientSdkInfo` of the same fields.
#[verifier::external_body]
fn sdk_to_protocol(sdk: SdkInfo) -> (fields: protocol::ClientSdkInfo) {
    protocol::ClientSdkInfo {
        name: sdk.name,
        version: sdk.version,
        integrations: sdk.integrations,
        packages: sdk.packages.into_iter().map(
            |package| protocol::ClientSdkPackage { name: package.name, version: package.version },
        ).collect(),
    }
}

/// Runs `process_event` on an event of `sentry_core`: its request data and
/// SDK information are taken out, processed and put back, and the rest of
/// the event is left as it was.
pub(crate) fn process_protocol_event(
    event: protocol::Event<'static>,
    request: &RequestSnapshot,
) -> protocol::Event<'static> {
    let mut event = event;
    let (attached, sdk) = split_event(&mut event);
    let fields = EventFields {
        request: match attached {
            Some(attached) => Some(request_from_protocol(attached)),
            None => None,
        },
        sdk: match sdk {
            Some(sdk) => Some(sdk_from_protocol(sdk)),
            None => None,
        },
    };
    let EventFields { request: attached, sdk } = process_event(fields, request);
    let attached = match attached {
        Some(attached) => Some(request_to_protocol(attached)),
        None => None,
    };
    let sdk = match sdk {
        Some(sdk) => Some(sdk_to_protocol(sdk)),
        None => None,
    };
    join_event(&mut event, attached, sdk);
    event
}

} // verus!
