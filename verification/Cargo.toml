[package]
name = "blogpatch"
version = "0.1.0"
edition = "2021"
publish = false

[dependencies]
edgedb-protocol = "=0.6.1"
edgedb-tokio = "=0.5.1"
edgedb-errors = "=0.4.2"
edgedb-derive = "=0.5.2"
uuid = { version = "=1.27.0", features = ["serde", "v4"] }
serde = { version = "*", features = ["derive"] }
serde_json = "*"
serde-value = "*"
axum = "*"
axum-extra = { version = "*", features = ["query"] }
tokio = { version = "*", features = ["macros", "rt-multi-thread"] }
http = "*"
minijinja = "*"
thiserror = "*"
tracing = "*"
config = "*"
libpassgen = "*"
miette = "*"
chrono = { version = "*", features = ["serde"] }
time = "*"
indexmap = "*"
