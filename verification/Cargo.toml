[package]
name = "forgequeue"
version = "0.1.0"
edition = "2021"
publish = false

[dependencies]
sha2 = "0.10"
base64 = "0.22"
rand = "0.8"
infer = "0.19"
image = { version = "0.25", default-features = false, features = ["png", "jpeg", "webp"] }
lopdf = "*"
url = "2"
uuid = { version = "1", features = ["v4", "v7", "serde"] }
chrono = { version = "0.4", default-features = false, features = ["clock", "serde", "std"] }
anyhow = "1"
bytes = "1"
serde = { version = "1", features = ["derive"] }
serde_json = "1"
thiserror = "2"
tokio = { version = "1", features = ["rt-multi-thread", "macros", "fs", "signal", "time", "net", "sync"] }
tokio-util = "0.7"
futures-util = "0.3"
async-stream = "0.3"
axum = { version = "0.8", features = ["multipart"] }
tower-http = { version = "0.6", features = ["cors", "trace"] }
sqlx = { version = "0.8", default-features = false, features = ["runtime-tokio", "postgres", "uuid", "chrono", "derive", "migrate"] }
object_store = { version = "*", features = ["aws"] }
clap = { version = "4", features = ["derive"] }
tracing = "0.1"
tracing-subscriber = { version = "0.3", features = ["env-filter", "json", "fmt"] }
metrics = "0.24"
metrics-exporter-prometheus = { version = "0.17", default-features = false }
utoipa = { version = "5", features = ["uuid", "chrono"] }
pdfium-render = "*"
