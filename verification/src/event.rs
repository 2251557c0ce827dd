//! The part of an event that the middleware works on, and the processing
//! that every event of a request goes through.

use crate::request::{RequestSnapshot, SnapshotView};
use vstd::prelude::*;
use vstd::string::*;

verus! {

/// An installed package relevant to the SDK.
pub struct SdkPackage {
    /// The name of the package.
    pub name: String,
    /// The version of the package.
    pub version: String,
}

/// Information on the SDK client.
pub struct SdkInfo {
    /// The name of the SDK.
    pub name: String,
    /// The version of the SDK.
    pub version: String,
    /// The integrations that are enabled in the SDK.
    pub integrations: Vec<String>,
    /// The packages that are installed in the SDK's environment.
    pub packages: Vec<SdkPackage>,
}

/// What the middleware reads and writes of an event.
pub struct EventFields {
    /// The request data of the event.
    pub request: Option<RequestSnapshot>,
    /// The SDK that made the event.
    pub sdk: Option<SdkInfo>,
}

pub struct SdkPackageView {
    pub name: Seq<char>,
    pub version: Seq<char>,
}

pub struct SdkInfoView {
    pub name: Seq<char>,
    pub version: Seq<char>,
    pub integrations: Seq<Seq<char>>,
    pub packages: Seq<SdkPackageView>,
}

pub struct EventFieldsView {
    pub request: Option<SnapshotView>,
    pub sdk: Option<SdkInfoView>,
}

impl View for SdkPackage {
    type V = SdkPackageView;

    open spec fn view(&self) -> SdkPackageView {
        SdkPackageView { name: self.name@, version: self.version@ }
    }
}

impl View for SdkInfo {
    type V = SdkInfoView;

    open spec fn view(&self) -> SdkInfoView {
        SdkInfoView {
            name: self.name@,
            version: self.version@,
            integrations: self.integrations@.map_values(|name: String| name@),
            packages: self.packages@.map_values(|package: SdkPackage| package@),
        }
    }
}

impl View for EventFields {
    type V = EventFieldsView;

    open spec fn view(&self) -> EventFieldsView {
        EventFieldsView {
            request: match self.request {
                Some(request) => Some(request@),
                None => None,
            },
            sdk: match self.sdk {
                Some(sdk) => Some(sdk@),
                None => None,
            },
        }
    }
}

/// The name under which this integration enters itself in an event.
pub const PACKAGE_NAME: &'static str = "sentry-actix";

/// The version under which this integration enters itself in an event.
pub const PACKAGE_VERSION: &'static str = "0.1.0";

/// The package entry of this integration.
pub open spec fn integration_package() -> SdkPackageView {
    SdkPackageView { name: PACKAGE_NAME@, version: PACKAGE_VERSION@ }
}

/// An event after processing: it has the request's data unless it came with
/// request data of its own, and where it names its SDK, this integration is
/// the last of the SDK's packages.
pub open spec fn processed(event: EventFieldsView, request: SnapshotView) -> EventFieldsView {
    EventFieldsView {
        request: if event.request is None {
            Some(request)
        } else {
            event.request
        },
        sdk: match event.sdk {
            Some(sdk) => Some(
                SdkInfoView { packages: sdk.packages.push(integration_package()), ..sdk },
            ),
            None => None,
        },
    }
}

/// Add request data to a Sentry event
pub fn process_event(event: EventFields, request: &RequestSnapshot) -> (out: EventFields)
    ensures
        out@ == processed(event@, request@),
{
    let EventFields { request: attached, sdk } = event;
    let attached = match attached {
        Some(attached) => Some(attached),
        None => Some(request.clone()),
    };
    let sdk = match sdk {
        Some(sdk) => {
            let ghost before = sdk@;
            let mut sdk = sdk;
            let package = SdkPackage {
                name: String::from_str(PACKAGE_NAME),
                version: String::from_str(PACKAGE_VERSION),
            };
            sdk.packages.push(package);
            proof {
                assert(sdk@.packages =~= before.packages.push(integration_package()));
            }
            Some(sdk)
        },
        None => None,
    };
    EventFields { request: attached, sdk }
}

} // verus!
