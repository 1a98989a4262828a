[package]
name = "worker_fullstack"
version = "0.1.0"
edition = "2021"
publish = false

[dependencies]
async-trait = "=0.1.92"
console_error_panic_hook = "=0.1.7"
gloo-net = "=0.6.0"
leptos = { version = "=0.7.8", features = ["csr"] }
serde = { version = "=1.0.229", features = ["derive"] }
worker = { version = "=0.5.0", features = ["d1"] }
