use std::sync::Arc;

use sentry_actix::{Sentry, SentryBuilder};
use sentry_core::Hub;

fn fresh_hub() -> Arc<Hub> {
    Arc::new(Hub::new(None, Arc::new(Default::default())))
}

#[test]
fn new_has_the_defaults() {
    let sentry = Sentry::new();
    assert!(sentry.hub().is_none());
    assert!(!sentry.emits_header());
    assert!(sentry.captures_server_errors());

    let sentry = Sentry::default();
    assert!(sentry.hub().is_none());
    assert!(!sentry.emits_header());
    assert!(sentry.captures_server_errors());
}

#[test]
fn builder_starts_from_the_defaults() {
    let sentry = Sentry::builder().finish();
    assert!(sentry.hub().is_none());
    assert!(!sentry.emits_header());
    assert!(sentry.captures_server_errors());
}

#[test]
fn builder_sets_each_field_alone() {
    let sentry = Sentry::builder().emit_header(true).finish();
    assert!(sentry.hub().is_none());
    assert!(sentry.emits_header());
    assert!(sentry.captures_server_errors());

    let sentry = Sentry::builder().capture_server_errors(false).finish();
    assert!(sentry.hub().is_none());
    assert!(!sentry.emits_header());
    assert!(!sentry.captures_server_errors());

    let hub = fresh_hub();
    let sentry = Sentry::builder().with_hub(hub.clone()).finish();
    assert!(Arc::ptr_eq(&sentry.hub().unwrap(), &hub));
    assert!(!sentry.emits_header());
    assert!(sentry.captures_server_errors());
}

#[test]
fn later_settings_override_earlier_ones() {
    let hub = fresh_hub();
    let other = fresh_hub();
    let builder: SentryBuilder = Sentry::builder()
        .with_hub(hub)
        .with_hub(other.clone())
        .emit_header(true)
        .emit_header(false)
        .capture_server_errors(false)
        .capture_server_errors(true);
    let sentry = builder.finish();
    assert!(Arc::ptr_eq(&sentry.hub().unwrap(), &other));
    assert!(!sentry.emits_header());
    assert!(sentry.captures_server_errors());

    let sentry = sentry.into_builder().with_default_hub().finish();
    assert!(sentry.hub().is_none());
}

#[test]
fn into_builder_keeps_the_settings() {
    let hub = fresh_hub();
    let sentry = Sentry::builder()
        .with_hub(hub.clone())
        .emit_header(true)
        .capture_server_errors(false)
        .finish();
    let again = sentry.into_builder().finish();
    assert!(Arc::ptr_eq(&again.hub().unwrap(), &hub));
    assert!(again.emits_header());
    assert!(!again.captures_server_errors());
}

#[test]
fn clone_and_transform_keep_the_settings() {
    let hub = fresh_hub();
    let sentry = Sentry::builder()
        .with_hub(hub.clone())
        .emit_header(true)
        .finish();
    let copy = sentry.clone();
    assert!(Arc::ptr_eq(&copy.hub().unwrap(), &hub));
    assert!(copy.emits_header());
    assert!(copy.captures_server_errors());

    let middleware = sentry.new_transform(7u8);
    assert_eq!(*middleware.service(), 7u8);
    assert!(Arc::ptr_eq(&middleware.inner().hub().unwrap(), &hub));
    assert!(middleware.inner().emits_header());
    assert!(middleware.inner().captures_server_errors());
}

#[test]
fn parent_is_the_configured_hub_or_the_main_hub() {
    let hub = fresh_hub();
    let sentry = Sentry::builder().with_hub(hub.clone()).finish();
    assert!(Arc::ptr_eq(&sentry.parent_hub(), &hub));
    assert!(!Arc::ptr_eq(&sentry.parent_hub(), &Hub::main()));

    assert!(Arc::ptr_eq(&Sentry::new().parent_hub(), &Hub::main()));
    let sentry = sentry.into_builder().with_default_hub().finish();
    assert!(Arc::ptr_eq(&sentry.parent_hub(), &Hub::main()));
}
