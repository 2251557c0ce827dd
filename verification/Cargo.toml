[package]
name = "sentry-actix"
version = "0.1.0"
edition = "2021"
publish = false

[dependencies]
actix-web = { version = "=4.18.1", default-features = false }
futures-util = "=0.3.34"
sentry-core = { version = "=0.49.3", default-features = false, features = ["client", "release-health"] }

[dev-dependencies]
sentry-core = { version = "=0.49.3", default-features = false, features = ["test"] }
