[package]
name = "issues_service"
version = "0.1.0"
edition = "2021"
publish = false

[dependencies]
chrono = "0.4"
diesel = { version = "1.4", features = ["postgres", "r2d2", "chrono"] }
dotenv = "0.15"
futures = "0.3"
prost-types = "0.11"
r2d2 = "0.8"
tokio = { version = "1", features = ["macros", "rt", "sync"] }
tokio-stream = "0.1"
tonic = "0.8"
uuid = { version = "1", features = ["v4"] }
