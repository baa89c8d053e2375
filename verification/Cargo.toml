[package]
name = "openmedia"
version = "0.1.0"
edition = "2021"
publish = false

[dependencies]
uuid = { version = "=1.29.1", features = ["v7"] }
serde = { version = "=1.0.229", features = ["derive"] }
serde_json = "=1.0.154"
schemars = "=1.2.3"
rmcp = { version = "=3.8.0", features = ["server", "macros", "transport-io"] }
tokio = { version = "=1.54.1", features = ["full"] }
image = { version = "=0.25.10", default-features = false, features = ["png", "jpeg", "webp"] }
resvg = "=0.44.0"
tiny-skia = "=0.11.4"
async-trait = "=0.1.92"
futures = "=0.3.34"
chrono = "=0.4.45"
tracing = "=0.1.44"
tracing-subscriber = { version = "=0.3.23", features = ["env-filter"] }
chromiumoxide = "*"
rusqlite = { version = "*", features = ["bundled"] }
