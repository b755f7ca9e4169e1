[package]
name = "rls_dispatch"
version = "0.1.0"
edition = "2021"
publish = false

[dependencies]
jsonrpc-core = "*"
racer = "*"
rayon = "*"
rls-span = "*"
rls-vfs = "*"
serde = { version = "*", features = ["derive"] }
serde_json = "*"
url = "*"
