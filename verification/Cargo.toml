[package]
name = "tunnel_watchdog"
version = "0.1.0"
edition = "2021"
publish = false

[dependencies]
ipnetwork = { version = "0.20", default-features = false }
jnix = "0.5"
log = "0.4"
nix = "0.26"
rand = "0.8"
thiserror = "1"
