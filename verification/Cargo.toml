[package]
name = "pg_tunnel"
version = "0.1.0"
edition = "2021"
publish = false

[dependencies]
anyhow = "=1.0.104"
bytes = "=1.12.1"
clap = { version = "=4.6.7", features = ["derive"] }
fallible-iterator = "=0.2.0"
futures = "=0.3.34"
http = "=0.2.12"
js-sys = "=0.3.106"
postgres-protocol = "=0.6.12"
quinn = "=0.10.2"
rustls = "=0.21.12"
sec-http3 = "=0.1.2"
tokio = { version = "=1.54.1", features = ["full"] }
tracing = "=0.1.44"
tracing-subscriber = { version = "=0.3.23", features = ["env-filter"] }
wasm-bindgen = "=0.2.129"
wasm-bindgen-futures = "*"
web-sys = { version = "=0.3.106", features = ["ReadableStream", "ReadableStreamDefaultReader", "WritableStream", "WritableStreamDefaultWriter"] }

[dev-dependencies]
base64 = "=0.22.1"
hmac = "=0.13.0"
sha2 = "=0.11.1"
