[package]
name = "sms_solvers"
version = "0.1.0"
edition = "2021"
publish = false

[dependencies]
isocountry = "=0.3.2"
keshvar = { version = "=0.7.0", features = ["search-country-code"] }
rand = "=0.10.3"
reqwest = { version = "=0.13.5", default-features = false }
reqwest-middleware = "=0.5.2"
secrecy = "=0.10.3"
serde = { version = "=1.0.229", features = ["derive"] }
serde_json = "=1.0.151"
serde_urlencoded = "=0.7.1"
tokio = { version = "=1.53.2", features = ["rt", "time", "macros"] }
tokio-util = "=0.7.19"
url = "=2.5.8"
