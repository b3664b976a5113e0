[package]
name = "vegafusion_sql"
version = "0.1.0"
edition = "2021"
publish = false

[dependencies]
sqlparser = "=0.30.0"
deterministic-hash = "=1.0.2"
serde = { version = "=1.0.229", features = ["derive"] }
serde_json = "=1.0.154"
async-trait = "=0.1.92"
lazy_static = "=1.5.1"
arrow = { version = "=31.0.0", default-features = false }
datafusion = { version = "=17.0.0", default-features = false }
datafusion-common = { version = "=17.0.0", default-features = false }
datafusion-expr = "=17.0.0"
chrono = { version = "=0.4.31", default-features = false, features = ["clock", "std"] }
