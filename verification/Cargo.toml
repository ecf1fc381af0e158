[package]
name = "schema_registry_converter"
version = "0.1.0"
edition = "2021"
publish = false

[dependencies]
byteorder = "1"
curl = { version = "0.4", default-features = false }
failure = "0.1"
protofish = "*"
serde = { version = "1", features = ["derive"] }
serde_json = "1"
tokio = { version = "1", features = ["sync"] }
