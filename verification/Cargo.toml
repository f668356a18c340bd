[package]
name = "astrobox_plugin"
version = "0.1.0"
edition = "2021"
publish = false

[dependencies]
astrobox-ng-wit = "=0.2.2"
serde = { version = "=1.0.229", features = ["derive"] }
serde_json = "=1.0.154"
tracing = "=0.1.44"
