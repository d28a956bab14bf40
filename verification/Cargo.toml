[package]
name = "wasmbus_rpc"
version = "0.1.0"
edition = "2021"
publish = false

[dependencies]
minicbor = { version = "=2.3.0", features = ["std"] }
nats-aflowt = "=0.16.105"
serde = { version = "=1.0.229", features = ["derive"] }
thiserror = "=2.0.21"
async-trait = "=0.1.92"
