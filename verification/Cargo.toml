[package]
name = "mcp_server_master_go"
version = "0.1.0"
edition = "2021"
publish = false

[dependencies]
schemars = "*"
serde = { version = "1", features = ["derive"] }
zed_extension_api = "*"
