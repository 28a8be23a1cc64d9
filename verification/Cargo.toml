[package]
name = "wimble"
version = "0.1.0"
edition = "2021"
publish = false

[dependencies]
config = "=0.15.27"
serde = { version = "=1.0.229", features = ["derive"] }
thirtyfour = "=0.38.1"
tokio = { version = "=1.54.1", features = ["full"] }
twitch-irc = { version = "=6.1.3", default-features = false, features = ["transport-tcp", "transport-tcp-rustls-webpki-roots"] }
async-trait = "=0.1.92"
futures = "=0.3.34"
