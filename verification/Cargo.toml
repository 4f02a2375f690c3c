[package]
name = "egress_proxy_sql_poller"
version = "0.1.0"
edition = "2021"
publish = false

[dependencies]
tokio = { version = "*", features = ["rt-multi-thread", "time", "macros"] }
config = "*"
serde = "*"
serde_derive = "*"
lazy_static = "*"
