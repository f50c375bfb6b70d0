[package]
name = "pkg_updates_notifier"
version = "0.1.0"
edition = "2021"
publish = false

[dependencies]
rust-apt = "*"
nix = { version = "*", features = ["hostname"] }
lettre = { version = "*", default-features = false, features = ["builder", "smtp-transport", "rustls-tls", "hostname"] }
clap = { version = "*", features = ["derive"] }
dialoguer = "*"
serde = { version = "*", features = ["derive"] }
toml = "*"
cxx = "*"
