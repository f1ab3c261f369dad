[package]
name = "mail_relay"
version = "0.1.0"
edition = "2021"
publish = false

[dependencies]
clap = { version = "4", features = ["derive"] }
imap = { version = "=2.4.1", default-features = false }
mail-parser = "=0.11.9"
mail-send = { version = "=0.6.2", default-features = false, features = ["ring", "tls12"] }
rustls = "=0.21.12"
rustls-connector = { version = "=0.18.5", default-features = false, features = ["webpki-roots-certs"] }
serde = { version = "1", features = ["derive"] }
tokio = { version = "1", features = ["macros", "rt-multi-thread"] }
toml = "1"
