[package]
name = "my_zero2prod"
version = "0.1.0"
edition = "2021"
publish = false

[dependencies]
rand = "=0.9.5"
uuid = { version = "=1.27.0", features = ["v4"] }
chrono = "=0.4.45"
axum = "0.8"
tokio = { version = "1", features = ["rt-multi-thread", "macros", "net"] }
tower = "0.5"
tower-http = { version = "0.6", features = ["trace", "request-id"] }
lettre = { version = "=0.11.23", default-features = false, features = ["smtp-transport", "builder"] }
serde = { version = "1", features = ["derive"] }
config = { version = "0.15", default-features = false, features = ["yaml"] }
dotenv = "0.15"
serde-aux = "4"
secrecy = { version = "=0.10.3", features = ["serde"] }
tracing = "0.1"
tracing-subscriber = { version = "0.3", features = ["env-filter", "registry"] }
tracing-log = "0.2"
tracing-bunyan-formatter = "0.3"
